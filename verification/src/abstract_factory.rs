//! Families of styled UI widgets: three factories, one per desktop style,
//! each producing buttons, checkboxes and text inputs that render in that
//! style; an application builds a whole login form from whichever factory it
//! was given.

use vstd::prelude::*;

verus! {

/// The three widget styles.
#[derive(Debug, Clone, Copy, PartialEq, Eq, Structural)]
pub enum WidgetStyle {
    Windows,
    Mac,
    Linux,
}

/// What every button does.
pub trait Button {
    spec fn render_spec(&self) -> Seq<char>;

    spec fn click_spec(&self) -> Seq<char>;

    fn render(&self) -> (r: String)
        ensures
            r@ == self.render_spec(),
    ;

    fn on_click(&self) -> (r: String)
        ensures
            r@ == self.click_spec(),
    ;
}

/// What every checkbox does.
pub trait Checkbox {
    spec fn render_spec(&self) -> Seq<char>;

    spec fn toggle_spec(&self) -> Seq<char>;

    fn render(&self) -> (r: String)
        ensures
            r@ == self.render_spec(),
    ;

    fn toggle(&self) -> (r: String)
        ensures
            r@ == self.toggle_spec(),
    ;
}

/// What every text input does.
pub trait TextInput {
    spec fn render_spec(&self) -> Seq<char>;

    spec fn value_spec(&self) -> Seq<char>;

    fn render(&self) -> (r: String)
        ensures
            r@ == self.render_spec(),
    ;

    fn get_value(&self) -> (r: String)
        ensures
            r@ == self.value_spec(),
    ;
}

pub struct WindowsButton {
    pub text: String,
}

impl WindowsButton {
    pub fn new(text: &str) -> (r: WindowsButton)
        ensures
            r.text@ == text@,
    {
        WindowsButton { text: text.to_owned() }
    }
}

impl Button for WindowsButton {
    open spec fn render_spec(&self) -> Seq<char> {
        "[Windows Button: "@ + self.text@ + "]"@
    }

    open spec fn click_spec(&self) -> Seq<char> {
        "Windows button '"@ + self.text@ + "' clicked with mouse"@
    }

    fn render(&self) -> (r: String) {
        let r = "[Windows Button: ".to_owned().concat(self.text.as_str()).concat("]");
        proof {
            assert(r@ =~= self.render_spec());
        }
        r
    }

    fn on_click(&self) -> (r: String) {
        let r = "Windows button '".to_owned().concat(self.text.as_str()).concat(
            "' clicked with mouse",
        );
        proof {
            assert(r@ =~= self.click_spec());
        }
        r
    }
}

pub struct WindowsCheckbox {
    pub label: String,
    pub checked: bool,
}

impl WindowsCheckbox {
    pub fn new(label: &str) -> (r: WindowsCheckbox)
        ensures
            r.label@ == label@,
            !r.checked,
    {
        WindowsCheckbox { label: label.to_owned(), checked: false }
    }
}

impl Checkbox for WindowsCheckbox {
    open spec fn render_spec(&self) -> Seq<char> {
        (if self.checked {
            "\u{2611} "@
        } else {
            "\u{2610} "@
        }) + self.label@
    }

    open spec fn toggle_spec(&self) -> Seq<char> {
        "Windows checkbox '"@ + self.label@ + "' toggled"@
    }

    fn render(&self) -> (r: String) {
        let symbol = if self.checked {
            "\u{2611} "
        } else {
            "\u{2610} "
        };
        let r = symbol.to_owned().concat(self.label.as_str());
        proof {
            assert(r@ =~= self.render_spec());
        }
        r
    }

    fn toggle(&self) -> (r: String) {
        let r = "Windows checkbox '".to_owned().concat(self.label.as_str()).concat("' toggled");
        proof {
            assert(r@ =~= self.toggle_spec());
        }
        r
    }
}

pub struct WindowsTextInput {
    pub placeholder: String,
    pub value: String,
}

impl WindowsTextInput {
    pub fn new(placeholder: &str) -> (r: WindowsTextInput)
        ensures
            r.placeholder@ == placeholder@,
            r.value@.len() == 0,
    {
        WindowsTextInput { placeholder: placeholder.to_owned(), value: String::new() }
    }
}

impl TextInput for WindowsTextInput {
    open spec fn render_spec(&self) -> Seq<char> {
        "[Windows Input: "@ + self.placeholder@ + "]"@
    }

    open spec fn value_spec(&self) -> Seq<char> {
        self.value@
    }

    fn render(&self) -> (r: String) {
        let r = "[Windows Input: ".to_owned().concat(self.placeholder.as_str()).concat("]");
        proof {
            assert(r@ =~= self.render_spec());
        }
        r
    }

    fn get_value(&self) -> (r: String) {
        self.value.clone()
    }
}

pub struct MacButton {
    pub text: String,
}

impl MacButton {
    pub fn new(text: &str) -> (r: MacButton)
        ensures
            r.text@ == text@,
    {
        MacButton { text: text.to_owned() }
    }
}

impl Button for MacButton {
    open spec fn render_spec(&self) -> Seq<char> {
        "( "@ + self.text@ + " )"@
    }

    open spec fn click_spec(&self) -> Seq<char> {
        "macOS button '"@ + self.text@ + "' clicked with trackpad"@
    }

    fn render(&self) -> (r: String) {
        let r = "( ".to_owned().concat(self.text.as_str()).concat(" )");
        proof {
            assert(r@ =~= self.render_spec());
        }
        r
    }

    fn on_click(&self) -> (r: String) {
        let r = "macOS button '".to_owned().concat(self.text.as_str()).concat(
            "' clicked with trackpad",
        );
        proof {
            assert(r@ =~= self.click_spec());
        }
        r
    }
}

pub struct MacCheckbox {
    pub label: String,
    pub checked: bool,
}

impl MacCheckbox {
    pub fn new(label: &str) -> (r: MacCheckbox)
        ensures
            r.label@ == label@,
            !r.checked,
    {
        MacCheckbox { label: label.to_owned(), checked: false }
    }
}

impl Checkbox for MacCheckbox {
    open spec fn render_spec(&self) -> Seq<char> {
        (if self.checked {
            "\u{2713} "@
        } else {
            "\u{25cb} "@
        }) + self.label@
    }

    open spec fn toggle_spec(&self) -> Seq<char> {
        "macOS checkbox '"@ + self.label@ + "' toggled"@
    }

    fn render(&self) -> (r: String) {
        let symbol = if self.checked {
            "\u{2713} "
        } else {
            "\u{25cb} "
        };
        let r = symbol.to_owned().concat(self.label.as_str());
        proof {
            assert(r@ =~= self.render_spec());
        }
        r
    }

    fn toggle(&self) -> (r: String) {
        let r = "macOS checkbox '".to_owned().concat(self.label.as_str()).concat("' toggled");
        proof {
            assert(r@ =~= self.toggle_spec());
        }
        r
    }
}

pub struct MacTextInput {
    pub placeholder: String,
    pub value: String,
}

impl MacTextInput {
    pub fn new(placeholder: &str) -> (r: MacTextInput)
        ensures
            r.placeholder@ == placeholder@,
            r.value@.len() == 0,
    {
        MacTextInput { placeholder: placeholder.to_owned(), value: String::new() }
    }
}

impl TextInput for MacTextInput {
    open spec fn render_spec(&self) -> Seq<char> {
        "\u{2310}"@ + self.placeholder@ + "\u{2310}"@
    }

    open spec fn value_spec(&self) -> Seq<char> {
        self.value@
    }

    fn render(&self) -> (r: String) {
        let r = "\u{2310}".to_owned().concat(self.placeholder.as_str()).concat("\u{2310}");
        proof {
            assert(r@ =~= self.render_spec());
        }
        r
    }

    fn get_value(&self) -> (r: String) {
        self.value.clone()
    }
}

pub struct LinuxButton {
    pub text: String,
}

impl LinuxButton {
    pub fn new(text: &str) -> (r: LinuxButton)
        ensures
            r.text@ == text@,
    {
        LinuxButton { text: text.to_owned() }
    }
}

impl Button for LinuxButton {
    open spec fn render_spec(&self) -> Seq<char> {
        "< "@ + self.text@ + " >"@
    }

    open spec fn click_spec(&self) -> Seq<char> {
        "Linux button '"@ + self.text@ + "' clicked"@
    }

    fn render(&self) -> (r: String) {
        let r = "< ".to_owned().concat(self.text.as_str()).concat(" >");
        proof {
            assert(r@ =~= self.render_spec());
        }
        r
    }

    fn on_click(&self) -> (r: String) {
        let r = "Linux button '".to_owned().concat(self.text.as_str()).concat("' clicked");
        proof {
            assert(r@ =~= self.click_spec());
        }
        r
    }
}

pub struct LinuxCheckbox {
    pub label: String,
    pub checked: bool,
}

impl LinuxCheckbox {
    pub fn new(label: &str) -> (r: LinuxCheckbox)
        ensures
            r.label@ == label@,
            !r.checked,
    {
        LinuxCheckbox { label: label.to_owned(), checked: false }
    }
}

impl Checkbox for LinuxCheckbox {
    open spec fn render_spec(&self) -> Seq<char> {
        (if self.checked {
            "[x] "@
        } else {
            "[ ] "@
        }) + self.label@
    }

    open spec fn toggle_spec(&self) -> Seq<char> {
        "Linux checkbox '"@ + self.label@ + "' toggled"@
    }

    fn render(&self) -> (r: String) {
        let symbol = if self.checked {
            "[x] "
        } else {
            "[ ] "
        };
        let r = symbol.to_owned().concat(self.label.as_str());
        proof {
            assert(r@ =~= self.render_spec());
        }
        r
    }

    fn toggle(&self) -> (r: String) {
        let r = "Linux checkbox '".to_owned().concat(self.label.as_str()).concat("' toggled");
        proof {
            assert(r@ =~= self.toggle_spec());
        }
        r
    }
}

pub struct LinuxTextInput {
    pub placeholder: String,
    pub value: String,
}

impl LinuxTextInput {
    pub fn new(placeholder: &str) -> (r: LinuxTextInput)
        ensures
            r.placeholder@ == placeholder@,
            r.value@.len() == 0,
    {
        LinuxTextInput { placeholder: placeholder.to_owned(), value: String::new() }
    }
}

impl TextInput for LinuxTextInput {
    open spec fn render_spec(&self) -> Seq<char> {
        "|"@ + self.placeholder@ + "|"@
    }

    open spec fn value_spec(&self) -> Seq<char> {
        self.value@
    }

    fn render(&self) -> (r: String) {
        let r = "|".to_owned().concat(self.placeholder.as_str()).concat("|");
        proof {
            assert(r@ =~= self.render_spec());
        }
        r
    }

    fn get_value(&self) -> (r: String) {
        self.value.clone()
    }
}

/// A button of any style.
pub enum UiButton {
    Windows(WindowsButton),
    Mac(MacButton),
    Linux(LinuxButton),
}

/// The style and label of a button.
pub open spec fn button_style(b: UiButton) -> WidgetStyle {
    match b {
        UiButton::Windows(_) => WidgetStyle::Windows,
        UiButton::Mac(_) => WidgetStyle::Mac,
        UiButton::Linux(_) => WidgetStyle::Linux,
    }
}

pub open spec fn button_text(b: UiButton) -> Seq<char> {
    match b {
        UiButton::Windows(w) => w.text@,
        UiButton::Mac(m) => m.text@,
        UiButton::Linux(l) => l.text@,
    }
}

impl Button for UiButton {
    open spec fn render_spec(&self) -> Seq<char> {
        match self {
            UiButton::Windows(w) => w.render_spec(),
            UiButton::Mac(m) => m.render_spec(),
            UiButton::Linux(l) => l.render_spec(),
        }
    }

    open spec fn click_spec(&self) -> Seq<char> {
        match self {
            UiButton::Windows(w) => w.click_spec(),
            UiButton::Mac(m) => m.click_spec(),
            UiButton::Linux(l) => l.click_spec(),
        }
    }

    fn render(&self) -> (r: String) {
        match self {
            UiButton::Windows(w) => w.render(),
            UiButton::Mac(m) => m.render(),
            UiButton::Linux(l) => l.render(),
        }
    }

    fn on_click(&self) -> (r: String) {
        match self {
            UiButton::Windows(w) => w.on_click(),
            UiButton::Mac(m) => m.on_click(),
            UiButton::Linux(l) => l.on_click(),
        }
    }
}

/// A checkbox of any style.
pub enum UiCheckbox {
    Windows(WindowsCheckbox),
    Mac(MacCheckbox),
    Linux(LinuxCheckbox),
}

pub open spec fn checkbox_style(c: UiCheckbox) -> WidgetStyle {
    match c {
        UiCheckbox::Windows(_) => WidgetStyle::Windows,
        UiCheckbox::Mac(_) => WidgetStyle::Mac,
        UiCheckbox::Linux(_) => WidgetStyle::Linux,
    }
}

pub open spec fn checkbox_label(c: UiCheckbox) -> Seq<char> {
    match c {
        UiCheckbox::Windows(w) => w.label@,
        UiCheckbox::Mac(m) => m.label@,
        UiCheckbox::Linux(l) => l.label@,
    }
}

impl Checkbox for UiCheckbox {
    open spec fn render_spec(&self) -> Seq<char> {
        match self {
            UiCheckbox::Windows(w) => w.render_spec(),
            UiCheckbox::Mac(m) => m.render_spec(),
            UiCheckbox::Linux(l) => l.render_spec(),
        }
    }

    open spec fn toggle_spec(&self) -> Seq<char> {
        match self {
            UiCheckbox::Windows(w) => w.toggle_spec(),
            UiCheckbox::Mac(m) => m.toggle_spec(),
            UiCheckbox::Linux(l) => l.toggle_spec(),
        }
    }

    fn render(&self) -> (r: String) {
        match self {
            UiCheckbox::Windows(w) => w.render(),
            UiCheckbox::Mac(m) => m.render(),
            UiCheckbox::Linux(l) => l.render(),
        }
    }

    fn toggle(&self) -> (r: String) {
        match self {
            UiCheckbox::Windows(w) => w.toggle(),
            UiCheckbox::Mac(m) => m.toggle(),
            UiCheckbox::Linux(l) => l.toggle(),
        }
    }
}

/// A text input of any style.
pub enum UiTextInput {
    Windows(WindowsTextInput),
    Mac(MacTextInput),
    Linux(LinuxTextInput),
}

pub open spec fn input_style(i: UiTextInput) -> WidgetStyle {
    match i {
        UiTextInput::Windows(_) => WidgetStyle::Windows,
        UiTextInput::Mac(_) => WidgetStyle::Mac,
        UiTextInput::Linux(_) => WidgetStyle::Linux,
    }
}

pub open spec fn input_placeholder(i: UiTextInput) -> Seq<char> {
    match i {
        UiTextInput::Windows(w) => w.placeholder@,
        UiTextInput::Mac(m) => m.placeholder@,
        UiTextInput::Linux(l) => l.placeholder@,
    }
}

impl TextInput for UiTextInput {
    open spec fn render_spec(&self) -> Seq<char> {
        match self {
            UiTextInput::Windows(w) => w.render_spec(),
            UiTextInput::Mac(m) => m.render_spec(),
            UiTextInput::Linux(l) => l.render_spec(),
        }
    }

    open spec fn value_spec(&self) -> Seq<char> {
        match self {
            UiTextInput::Windows(w) => w.value_spec(),
            UiTextInput::Mac(m) => m.value_spec(),
            UiTextInput::Linux(l) => l.value_spec(),
        }
    }

    fn render(&self) -> (r: String) {
        match self {
            UiTextInput::Windows(w) => w.render(),
            UiTextInput::Mac(m) => m.render(),
            UiTextInput::Linux(l) => l.render(),
        }
    }

    fn get_value(&self) -> (r: String) {
        match self {
            UiTextInput::Windows(w) => w.get_value(),
            UiTextInput::Mac(m) => m.get_value(),
            UiTextInput::Linux(l) => l.get_value(),
        }
    }
}

/// Makes whole families of widgets in one style.
pub trait UIFactory {
    /// The style every widget of this factory carries.
    spec fn style(&self) -> WidgetStyle;

    fn create_button(&self, text: &str) -> (r: UiButton)
        ensures
            button_style(r) == self.style(),
            button_text(r) == text@,
    ;

    fn create_checkbox(&self, label: &str) -> (r: UiCheckbox)
        ensures
            checkbox_style(r) == self.style(),
            checkbox_label(r) == label@,
    ;

    fn create_text_input(&self, placeholder: &str) -> (r: UiTextInput)
        ensures
            input_style(r) == self.style(),
            input_placeholder(r) == placeholder@,
    ;
}

pub struct WindowsFactory;

impl UIFactory for WindowsFactory {
    open spec fn style(&self) -> WidgetStyle {
        WidgetStyle::Windows
    }

    fn create_button(&self, text: &str) -> (r: UiButton) {
        UiButton::Windows(WindowsButton::new(text))
    }

    fn create_checkbox(&self, label: &str) -> (r: UiCheckbox) {
        UiCheckbox::Windows(WindowsCheckbox::new(label))
    }

    fn create_text_input(&self, placeholder: &str) -> (r: UiTextInput) {
        UiTextInput::Windows(WindowsTextInput::new(placeholder))
    }
}

pub struct MacFactory;

impl UIFactory for MacFactory {
    open spec fn style(&self) -> WidgetStyle {
        WidgetStyle::Mac
    }

    fn create_button(&self, text: &str) -> (r: UiButton) {
        UiButton::Mac(MacButton::new(text))
    }

    fn create_checkbox(&self, label: &str) -> (r: UiCheckbox) {
        UiCheckbox::Mac(MacCheckbox::new(label))
    }

    fn create_text_input(&self, placeholder: &str) -> (r: UiTextInput) {
        UiTextInput::Mac(MacTextInput::new(placeholder))
    }
}

pub struct LinuxFactory;

impl UIFactory for LinuxFactory {
    open spec fn style(&self) -> WidgetStyle {
        WidgetStyle::Linux
    }

    fn create_button(&self, text: &str) -> (r: UiButton) {
        UiButton::Linux(LinuxButton::new(text))
    }

    fn create_checkbox(&self, label: &str) -> (r: UiCheckbox) {
        UiCheckbox::Linux(LinuxCheckbox::new(label))
    }

    fn create_text_input(&self, placeholder: &str) -> (r: UiTextInput) {
        UiTextInput::Linux(LinuxTextInput::new(placeholder))
    }
}

/// A factory of any style.
pub enum UiFactoryKind {
    Windows(WindowsFactory),
    Mac(MacFactory),
    Linux(LinuxFactory),
}

impl UIFactory for UiFactoryKind {
    open spec fn style(&self) -> WidgetStyle {
        match self {
            UiFactoryKind::Windows(_) => WidgetStyle::Windows,
            UiFactoryKind::Mac(_) => WidgetStyle::Mac,
            UiFactoryKind::Linux(_) => WidgetStyle::Linux,
        }
    }

    fn create_button(&self, text: &str) -> (r: UiButton) {
        match self {
            UiFactoryKind::Windows(f) => f.create_button(text),
            UiFactoryKind::Mac(f) => f.create_button(text),
            UiFactoryKind::Linux(f) => f.create_button(text),
        }
    }

    fn create_checkbox(&self, label: &str) -> (r: UiCheckbox) {
        match self {
            UiFactoryKind::Windows(f) => f.create_checkbox(label),
            UiFactoryKind::Mac(f) => f.create_checkbox(label),
            UiFactoryKind::Linux(f) => f.create_checkbox(label),
        }
    }

    fn create_text_input(&self, placeholder: &str) -> (r: UiTextInput) {
        match self {
            UiFactoryKind::Windows(f) => f.create_text_input(placeholder),
            UiFactoryKind::Mac(f) => f.create_text_input(placeholder),
            UiFactoryKind::Linux(f) => f.create_text_input(placeholder),
        }
    }
}

/// The platforms a factory can be chosen for.
#[derive(Debug, Clone, Copy, PartialEq, Eq, Structural)]
pub enum OperatingSystem {
    Windows,
    MacOS,
    Linux,
    Unknown,
}

impl OperatingSystem {
    /// The platform's display name.
    pub fn name(&self) -> (r: &'static str)
        ensures
            r@ == match *self {
                OperatingSystem::Windows => "Windows"@,
                OperatingSystem::MacOS => "macOS"@,
                OperatingSystem::Linux => "Linux"@,
                OperatingSystem::Unknown => "Unknown"@,
            },
    {
        match self {
            OperatingSystem::Windows => "Windows",
            OperatingSystem::MacOS => "macOS",
            OperatingSystem::Linux => "Linux",
            OperatingSystem::Unknown => "Unknown",
        }
    }
}

/// Chooses the factory that matches a platform.
pub struct UIFactoryProvider;

impl UIFactoryProvider {
    /// A factory for every known platform; `Unknown` is refused.
    pub fn get_factory(os: OperatingSystem) -> (r: Result<UiFactoryKind, String>)
        ensures
            match os {
                OperatingSystem::Windows => r is Ok && r->Ok_0.style() == WidgetStyle::Windows,
                OperatingSystem::MacOS => r is Ok && r->Ok_0.style() == WidgetStyle::Mac,
                OperatingSystem::Linux => r is Ok && r->Ok_0.style() == WidgetStyle::Linux,
                OperatingSystem::Unknown => r is Err && (r->Err_0)@
                    == "Unsupported operating system"@,
            },
    {
        match os {
            OperatingSystem::Windows => Ok(UiFactoryKind::Windows(WindowsFactory)),
            OperatingSystem::MacOS => Ok(UiFactoryKind::Mac(MacFactory)),
            OperatingSystem::Linux => Ok(UiFactoryKind::Linux(LinuxFactory)),
            OperatingSystem::Unknown => Err("Unsupported operating system".to_owned()),
        }
    }

    /// The platform this build runs on; the library is built for
    /// Linux-family targets.
    pub fn detect_os() -> (r: OperatingSystem)
        ensures
            r == OperatingSystem::Linux,
    {
        OperatingSystem::Linux
    }
}

/// Builds forms from whichever factory it holds.
pub struct Application {
    pub factory: UiFactoryKind,
}

impl Application {
    pub fn new(factory: UiFactoryKind) -> (r: Application)
        ensures
            r.factory == factory,
    {
        Application { factory }
    }

    /// A login form whose five widgets all carry the factory's style and the
    /// standard labels.
    pub fn create_login_form(&self) -> (r: LoginForm)
        ensures
            input_style(r.username_input) == self.factory.style(),
            input_placeholder(r.username_input) == "Username"@,
            input_style(r.password_input) == self.factory.style(),
            input_placeholder(r.password_input) == "Password"@,
            checkbox_style(r.remember_me) == self.factory.style(),
            checkbox_label(r.remember_me) == "Remember me"@,
            button_style(r.login_button) == self.factory.style(),
            button_text(r.login_button) == "Login"@,
            button_style(r.cancel_button) == self.factory.style(),
            button_text(r.cancel_button) == "Cancel"@,
    {
        let username_input = self.factory.create_text_input("Username");
        let password_input = self.factory.create_text_input("Password");
        let remember_me = self.factory.create_checkbox("Remember me");
        let login_button = self.factory.create_button("Login");
        let cancel_button = self.factory.create_button("Cancel");
        LoginForm { username_input, password_input, remember_me, login_button, cancel_button }
    }
}

/// A login form of five widgets in one style.
pub struct LoginForm {
    pub username_input: UiTextInput,
    pub password_input: UiTextInput,
    pub remember_me: UiCheckbox,
    pub login_button: UiButton,
    pub cancel_button: UiButton,
}

impl LoginForm {
    /// The whole form, one widget per line, the two buttons side by side.
    pub fn render(&self) -> (r: String)
        ensures
            r@ == "Login Form:\n"@ + self.username_input.render_spec() + "\n"@
                + self.password_input.render_spec() + "\n"@ + self.remember_me.render_spec()
                + "\n"@ + self.login_button.render_spec() + " "@
                + self.cancel_button.render_spec(),
    {
        let r = "Login Form:\n".to_owned().concat(self.username_input.render().as_str()).concat(
            "\n",
        ).concat(self.password_input.render().as_str()).concat("\n").concat(
            self.remember_me.render().as_str(),
        ).concat("\n").concat(self.login_button.render().as_str()).concat(" ").concat(
            self.cancel_button.render().as_str(),
        );
        proof {
            assert(r@ =~= "Login Form:\n"@ + self.username_input.render_spec() + "\n"@
                + self.password_input.render_spec() + "\n"@ + self.remember_me.render_spec()
                + "\n"@ + self.login_button.render_spec() + " "@
                + self.cancel_button.render_spec());
        }
        r
    }

    /// What pressing the login button answers.
    pub fn handle_login_click(&self) -> (r: String)
        ensures
            r@ == self.login_button.click_spec(),
    {
        self.login_button.on_click()
    }
}

} // verus!
