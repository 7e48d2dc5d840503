use design_patterns::abstract_factory::Application;
use design_patterns::abstract_factory::Button;
use design_patterns::abstract_factory::Checkbox;
use design_patterns::abstract_factory::LinuxFactory;
use design_patterns::abstract_factory::MacFactory;
use design_patterns::abstract_factory::OperatingSystem;
use design_patterns::abstract_factory::TextInput;
use design_patterns::abstract_factory::UIFactory;
use design_patterns::abstract_factory::UIFactoryProvider;
use design_patterns::abstract_factory::UiFactoryKind;
use design_patterns::abstract_factory::WindowsFactory;

#[test]
fn test_windows_factory() {
    let factory = WindowsFactory;
    let button = factory.create_button("OK");
    assert!(button.render().contains("Windows Button"));
    assert!(button.on_click().contains("mouse"));
}

#[test]
fn test_mac_factory() {
    let factory = MacFactory;
    let checkbox = factory.create_checkbox("Enable notifications");
    assert!(checkbox.render().contains("○")); // Unchecked
    assert!(checkbox.toggle().contains("macOS"));
}

#[test]
fn test_linux_factory() {
    let factory = LinuxFactory;
    let input = factory.create_text_input("Enter text");
    assert!(input.render().contains("|"));
}

#[test]
fn test_factory_provider() {
    let factory = UIFactoryProvider::get_factory(OperatingSystem::Windows).unwrap();
    let button = factory.create_button("Test");
    assert!(button.render().contains("Windows"));

    let result = UIFactoryProvider::get_factory(OperatingSystem::Unknown);
    assert!(result.is_err());
}

#[test]
fn test_application_with_different_factories() {
    let windows_app = Application::new(UiFactoryKind::Windows(WindowsFactory));
    let form = windows_app.create_login_form();
    let rendered = form.render();
    assert!(rendered.contains("Windows"));

    let mac_app = Application::new(UiFactoryKind::Mac(MacFactory));
    let form = mac_app.create_login_form();
    let rendered = form.render();
    assert!(rendered.contains("⌐"));
}

#[test]
fn test_os_detection() {
    let os = UIFactoryProvider::detect_os();
    // This will vary based on the system running the tests
    assert!(matches!(
        os,
        OperatingSystem::Windows
            | OperatingSystem::MacOS
            | OperatingSystem::Linux
            | OperatingSystem::Unknown
    ));
}

#[test]
fn test_widget_renderings_exact() {
    let w = WindowsFactory;
    assert_eq!(w.create_button("OK").render(), "[Windows Button: OK]");
    assert_eq!(w.create_checkbox("On").render(), "☐ On");
    assert_eq!(w.create_text_input("Name").render(), "[Windows Input: Name]");
    let m = MacFactory;
    assert_eq!(m.create_button("OK").render(), "( OK )");
    assert_eq!(m.create_checkbox("On").render(), "○ On");
    assert_eq!(m.create_text_input("Name").render(), "⌐Name⌐");
    let l = LinuxFactory;
    assert_eq!(l.create_button("OK").render(), "< OK >");
    assert_eq!(l.create_checkbox("On").render(), "[ ] On");
    assert_eq!(l.create_text_input("Name").render(), "|Name|");
}

#[test]
fn test_login_form_layout() {
    let app = Application::new(UiFactoryKind::Linux(LinuxFactory));
    let form = app.create_login_form();
    assert_eq!(
        form.render(),
        "Login Form:\n|Username|\n|Password|\n[ ] Remember me\n< Login > < Cancel >"
    );
    assert_eq!(form.handle_login_click(), "Linux button 'Login' clicked");
}
