//! A small model-view-controller split: a validated `User` record, a
//! `UserModel` holding users under unique ids, two views that render users as
//! text, and a controller that routes commands from callers to the model and
//! hands back what the view rendered.

use vstd::prelude::*;

use crate::util::contains_seq;
use crate::util::dec_rep;
use crate::util::fmt_u32;
use crate::util::fmt_usize;
use crate::util::lower_of;
use crate::util::str_contains;
use crate::util::to_lowercase;

verus! {

/// A user record; `new` and the setters keep the name non-empty and the
/// email address holding an `@`.
#[derive(Debug, Clone)]
pub struct User {
    pub id: u32,
    pub name: String,
    pub email: String,
}

/// Whether a name passes validation.
pub open spec fn valid_name(name: Seq<char>) -> bool {
    name.len() > 0
}

/// Whether an email address passes validation.
pub open spec fn valid_email(email: Seq<char>) -> bool {
    contains_seq(email, "@"@)
}

impl User {
    /// Well-formedness: what `new` validated.
    pub open spec fn wf(self) -> bool {
        valid_name(self.name@) && valid_email(self.email@)
    }

    /// Accepts exactly a non-empty name and an email with an `@`.
    pub fn new(id: u32, name: String, email: String) -> (r: Result<User, String>)
        ensures
            r is Ok <==> valid_name(name@) && valid_email(email@),
            r is Ok ==> r->Ok_0 == (User { id, name, email }) && r->Ok_0.wf(),
            r is Err ==> (r->Err_0)@ == if !valid_name(name@) {
                "Name cannot be empty"@
            } else {
                "Invalid email address"@
            },
    {
        if name.as_str().unicode_len() == 0 {
            return Err("Name cannot be empty".to_owned());
        }
        if email.as_str().unicode_len() == 0 || !str_contains(email.as_str(), "@") {
            proof {
                reveal_strlit("@");
            }
            return Err("Invalid email address".to_owned());
        }
        Ok(User { id, name, email })
    }

    pub fn id(&self) -> (r: u32)
        ensures
            r == self.id,
    {
        self.id
    }

    pub fn name(&self) -> (r: &str)
        ensures
            r@ == self.name@,
    {
        self.name.as_str()
    }

    pub fn email(&self) -> (r: &str)
        ensures
            r@ == self.email@,
    {
        self.email.as_str()
    }

    /// Replaces the name if it passes validation; otherwise an error and no
    /// change.
    pub fn set_name(&mut self, name: String) -> (r: Result<(), String>)
        ensures
            r is Ok <==> valid_name(name@),
            r is Ok ==> *final(self) == (User { name, ..*old(self) }),
            r is Err ==> *final(self) == *old(self) && (r->Err_0)@ == "Name cannot be empty"@,
    {
        if name.as_str().unicode_len() == 0 {
            return Err("Name cannot be empty".to_owned());
        }
        self.name = name;
        Ok(())
    }

    /// Replaces the email if it passes validation; otherwise an error and no
    /// change.
    pub fn set_email(&mut self, email: String) -> (r: Result<(), String>)
        ensures
            r is Ok <==> valid_email(email@),
            r is Ok ==> *final(self) == (User { email, ..*old(self) }),
            r is Err ==> *final(self) == *old(self) && (r->Err_0)@ == "Invalid email address"@,
    {
        if email.as_str().unicode_len() == 0 || !str_contains(email.as_str(), "@") {
            proof {
                reveal_strlit("@");
            }
            return Err("Invalid email address".to_owned());
        }
        self.email = email;
        Ok(())
    }
}

/// The index of the first user with the given id, or -1.
pub open spec fn user_index(s: Seq<User>, id: u32) -> int
    decreases s.len(),
{
    if s.len() == 0 {
        -1
    } else if s[0].id == id {
        0
    } else {
        let rest = user_index(s.subrange(1, s.len() as int), id);
        if rest == -1 {
            -1
        } else {
            rest + 1
        }
    }
}

pub proof fn lemma_user_index(s: Seq<User>, id: u32)
    ensures
        user_index(s, id) == -1 ==> forall|k: int| 0 <= k < s.len() ==> s[k].id != id,
        user_index(s, id) != -1 ==> {
            let j = user_index(s, id);
            0 <= j < s.len() && s[j].id == id && forall|k: int| 0 <= k < j ==> s[k].id != id
        },
    decreases s.len(),
{
    if s.len() > 0 && s[0].id != id {
        let rest = s.subrange(1, s.len() as int);
        lemma_user_index(rest, id);
        assert(forall|k: int| 1 <= k < s.len() ==> #[trigger] s[k] == rest[k - 1]);
        if user_index(rest, id) == -1 {
            assert(forall|k: int| 0 <= k < s.len() ==> #[trigger] s[k].id != id);
        } else {
            let j = user_index(rest, id);
            assert(s[j + 1].id == id);
            assert(forall|k: int| 0 <= k < j + 1 ==> #[trigger] s[k].id != id);
        }
    }
}

/// Whether a user's name matches a query, case-insensitively.
pub open spec fn name_matches(u: User, query: Seq<char>) -> bool {
    contains_seq(lower_of(u.name@), lower_of(query))
}

/// The users whose names match a query, in their stored order.
pub open spec fn matching_users(s: Seq<User>, query: Seq<char>) -> Seq<User>
    decreases s.len(),
{
    if s.len() == 0 {
        Seq::empty()
    } else if name_matches(s.last(), query) {
        matching_users(s.drop_last(), query) + seq![s.last()]
    } else {
        matching_users(s.drop_last(), query)
    }
}

/// The store of users; ids are unique.
#[derive(Debug)]
pub struct UserModel {
    pub users: Vec<User>,
}

impl UserModel {
    /// Well-formedness: no two users share an id.
    pub open spec fn wf(self) -> bool {
        forall|i: int, j: int|
            0 <= i < j < self.users@.len() ==> #[trigger] self.users@[i].id
                != #[trigger] self.users@[j].id
    }

    /// An empty store.
    pub fn new() -> (r: UserModel)
        ensures
            r.users@.len() == 0,
            r.wf(),
    {
        UserModel { users: Vec::new() }
    }

    /// Accepts a user exactly when the id is still free; on an error nothing
    /// changes.
    pub fn add_user(&mut self, user: User) -> (r: Result<(), String>)
        requires
            old(self).wf(),
        ensures
            final(self).wf(),
            r is Ok <==> user_index(old(self).users@, user.id) == -1,
            r is Ok ==> final(self).users@ == old(self).users@.push(user),
            r is Err ==> *final(self) == *old(self) && (r->Err_0)@ == "User with ID "@ + dec_rep(
                user.id as nat,
            ) + " already exists"@,
    {
        if self.find_user_index(user.id).is_some() {
            let msg = "User with ID ".to_owned().concat(fmt_u32(user.id).as_str()).concat(
                " already exists",
            );
            proof {
                assert(msg@ =~= "User with ID "@ + dec_rep(user.id as nat) + " already exists"@);
            }
            return Err(msg);
        }
        proof {
            lemma_user_index(old(self).users@, user.id);
        }
        self.users.push(user);
        proof {
            assert(forall|k: int|
                0 <= k < old(self).users@.len() ==> #[trigger] self.users@[k] == old(
                    self,
                ).users@[k]);
        }
        Ok(())
    }

    fn find_user_index(&self, id: u32) -> (r: Option<usize>)
        ensures
            match r {
                Some(i) => i < self.users@.len() && user_index(self.users@, id) == i as int,
                None => user_index(self.users@, id) == -1,
            },
    {
        let mut i: usize = 0;
        while i < self.users.len()
            invariant
                i <= self.users@.len(),
                forall|k: int| 0 <= k < i ==> #[trigger] self.users@[k].id != id,
            decreases self.users@.len() - i,
        {
            if self.users[i].id == id {
                proof {
                    lemma_user_index(self.users@, id);
                    let j = user_index(self.users@, id);
                    if j == -1 || j < i || j > i {
                        assert(false);
                    }
                }
                return Some(i);
            }
            i += 1;
        }
        proof {
            lemma_user_index(self.users@, id);
            if user_index(self.users@, id) != -1 {
                assert(false);
            }
        }
        None
    }

    /// The user under an id, if any.
    pub fn get_user(&self, id: u32) -> (r: Option<&User>)
        ensures
            ({
                let j = user_index(self.users@, id);
                match r {
                    Some(u) => j >= 0 && *u == self.users@[j],
                    None => j == -1,
                }
            }),
    {
        match self.find_user_index(id) {
            Some(i) => Some(&self.users[i]),
            None => None,
        }
    }

    /// A mutable borrow of the user under an id, if any.
    pub fn get_user_mut(&mut self, id: u32) -> (r: Option<&mut User>)
        ensures
            ({
                let j = user_index(old(self).users@, id);
                match r {
                    Some(u) => j >= 0 && *u == old(self).users@[j] && final(self).users@ == old(
                        self,
                    ).users@.update(j, *final(u)),
                    None => j == -1 && *final(self) == *old(self),
                }
            }),
    {
        match self.find_user_index(id) {
            Some(i) => Some(&mut self.users[i]),
            None => None,
        }
    }

    /// Removes and returns the user under an id, if any; ids stay unique.
    pub fn remove_user(&mut self, id: u32) -> (r: Option<User>)
        requires
            old(self).wf(),
        ensures
            final(self).wf(),
            ({
                let j = user_index(old(self).users@, id);
                match r {
                    Some(u) => j >= 0 && u == old(self).users@[j] && final(self).users@ == old(
                        self,
                    ).users@.remove(j),
                    None => j == -1 && *final(self) == *old(self),
                }
            }),
    {
        match self.find_user_index(id) {
            Some(i) => {
                let u = self.users.remove(i);
                proof {
                    assert(forall|a: int, b: int|
                        0 <= a < b < self.users@.len() ==> #[trigger] self.users@[a].id
                            != #[trigger] self.users@[b].id);
                }
                Some(u)
            },
            None => None,
        }
    }

    /// Borrows of all users, in stored order.
    pub fn get_all_users(&self) -> (r: Vec<&User>)
        ensures
            r@.len() == self.users@.len(),
            forall|k: int| 0 <= k < r@.len() ==> *(#[trigger] r@[k]) == self.users@[k],
    {
        let mut out: Vec<&User> = Vec::new();
        let mut i: usize = 0;
        while i < self.users.len()
            invariant
                i <= self.users@.len(),
                out@.len() == i,
                forall|k: int| 0 <= k < i ==> *(#[trigger] out@[k]) == self.users@[k],
            decreases self.users@.len() - i,
        {
            out.push(&self.users[i]);
            i += 1;
        }
        out
    }

    pub fn user_count(&self) -> (r: usize)
        ensures
            r == self.users@.len(),
    {
        self.users.len()
    }

    /// Borrows of the users whose names hold the query, both sides folded to
    /// lower case.
    pub fn find_users_by_name(&self, name: &str) -> (r: Vec<&User>)
        ensures
            r@.map_values(|u: &User| *u) == matching_users(self.users@, name@),
    {
        let query = to_lowercase(name);
        let mut out: Vec<&User> = Vec::new();
        let mut i: usize = 0;
        while i < self.users.len()
            invariant
                i <= self.users@.len(),
                query@ == lower_of(name@),
                out@.map_values(|u: &User| *u) == matching_users(
                    self.users@.take(i as int),
                    name@,
                ),
            decreases self.users@.len() - i,
        {
            let lowered = to_lowercase(self.users[i].name.as_str());
            if str_contains(lowered.as_str(), query.as_str()) {
                out.push(&self.users[i]);
            }
            proof {
                assert(self.users@.take(i + 1).drop_last() =~= self.users@.take(i as int));
                assert(self.users@.take(i + 1).last() == self.users@[i as int]);
                assert(out@.map_values(|u: &User| *u) =~= matching_users(
                    self.users@.take(i + 1),
                    name@,
                ));
            }
            i += 1;
        }
        proof {
            assert(self.users@.take(self.users@.len() as int) =~= self.users@);
        }
        out
    }
}

impl Default for UserModel {
    /// The same empty store `new` yields.
    fn default() -> (r: UserModel)
        ensures
            r.users@.len() == 0,
            r.wf(),
    {
        UserModel::new()
    }
}

/// How one view renders users and notices. Each view fixes its renderings as
/// spec functions; the methods return exactly those characters.
pub trait UserView {
    spec fn user_rendering(&self, user: User) -> Seq<char>;

    spec fn users_rendering(&self, users: Seq<User>) -> Seq<char>;

    spec fn message_rendering(&self, message: Seq<char>) -> Seq<char>;

    spec fn error_rendering(&self, error: Seq<char>) -> Seq<char>;

    spec fn not_found_rendering(&self, id: u32) -> Seq<char>;

    fn display_user(&self, user: &User) -> (r: String)
        ensures
            r@ == self.user_rendering(*user),
    ;

    fn display_users(&self, users: &Vec<&User>) -> (r: String)
        ensures
            r@ == self.users_rendering(users@.map_values(|u: &User| *u)),
    ;

    fn display_message(&self, message: &str) -> (r: String)
        ensures
            r@ == self.message_rendering(message@),
    ;

    fn display_error(&self, error: &str) -> (r: String)
        ensures
            r@ == self.error_rendering(error@),
    ;

    fn display_user_not_found(&self, id: u32) -> (r: String)
        ensures
            r@ == self.not_found_rendering(id),
    ;
}

/// The card the console view draws for one user.
pub open spec fn console_user_card(u: User) -> Seq<char> {
    "User ID: "@ + dec_rep(u.id as nat) + "\nName: "@ + u.name@ + "\nEmail: "@ + u.email@
}

/// The console view's user list: a header with the count, then one card per
/// line.
pub open spec fn console_user_lines(users: Seq<User>) -> Seq<char>
    decreases users.len(),
{
    if users.len() == 0 {
        Seq::empty()
    } else {
        console_user_lines(users.drop_last()) + "\n"@ + console_user_card(users.last())
    }
}

/// Renders users as plain text lines.
pub struct ConsoleUserView;

impl UserView for ConsoleUserView {
    open spec fn user_rendering(&self, user: User) -> Seq<char> {
        console_user_card(user)
    }

    open spec fn users_rendering(&self, users: Seq<User>) -> Seq<char> {
        if users.len() == 0 {
            self.message_rendering("No users found"@)
        } else {
            "=== All Users ("@ + dec_rep(users.len() as nat) + ") ==="@ + console_user_lines(users)
        }
    }

    open spec fn message_rendering(&self, message: Seq<char>) -> Seq<char> {
        "OK: "@ + message
    }

    open spec fn error_rendering(&self, error: Seq<char>) -> Seq<char> {
        "Error: "@ + error
    }

    open spec fn not_found_rendering(&self, id: u32) -> Seq<char> {
        "Error: User with ID "@ + dec_rep(id as nat) + " not found"@
    }

    fn display_user(&self, user: &User) -> (r: String) {
        let r = "User ID: ".to_owned().concat(fmt_u32(user.id).as_str()).concat(
            "\nName: ",
        ).concat(user.name.as_str()).concat("\nEmail: ").concat(user.email.as_str());
        proof {
            assert(r@ =~= console_user_card(*user));
        }
        r
    }

    fn display_users(&self, users: &Vec<&User>) -> (r: String) {
        let ghost target = users@.map_values(|u: &User| *u);
        if users.len() == 0 {
            return self.display_message("No users found");
        }
        let mut r = "=== All Users (".to_owned().concat(fmt_usize(users.len()).as_str()).concat(
            ") ===",
        );
        proof {
            assert(r@ =~= "=== All Users ("@ + dec_rep(users@.len() as nat) + ") ==="@);
        }
        let mut i: usize = 0;
        while i < users.len()
            invariant
                i <= users@.len(),
                target == users@.map_values(|u: &User| *u),
                r@ == "=== All Users ("@ + dec_rep(users@.len() as nat) + ") ==="@
                    + console_user_lines(target.take(i as int)),
            decreases users@.len() - i,
        {
            proof {
                assert(target[i as int] == *users@[i as int]);
            }
            r = r.concat("\n").concat(self.display_user(users[i]).as_str());
            proof {
                assert(target.take(i + 1).drop_last() =~= target.take(i as int));
                assert(target.take(i + 1).last() == target[i as int]);
                assert(r@ =~= "=== All Users ("@ + dec_rep(users@.len() as nat) + ") ==="@
                    + console_user_lines(target.take(i + 1)));
            }
            i += 1;
        }
        proof {
            assert(target.take(users@.len() as int) =~= target);
        }
        r
    }

    fn display_message(&self, message: &str) -> (r: String) {
        let r = "OK: ".to_owned().concat(message);
        proof {
            assert(r@ =~= "OK: "@ + message@);
        }
        r
    }

    fn display_error(&self, error: &str) -> (r: String) {
        let r = "Error: ".to_owned().concat(error);
        proof {
            assert(r@ =~= "Error: "@ + error@);
        }
        r
    }

    fn display_user_not_found(&self, id: u32) -> (r: String) {
        let r = "Error: User with ID ".to_owned().concat(fmt_u32(id).as_str()).concat(
            " not found",
        );
        proof {
            assert(r@ =~= "Error: User with ID "@ + dec_rep(id as nat) + " not found"@);
        }
        r
    }
}

/// One user as a JSON object.
pub open spec fn json_user_object(u: User) -> Seq<char> {
    "{ \"id\": "@ + dec_rep(u.id as nat) + ", \"name\": \""@ + u.name@ + "\", \"email\": \""@
        + u.email@ + "\" }"@
}

/// The JSON view's user list body: objects joined by commas.
pub open spec fn json_user_list(users: Seq<User>) -> Seq<char>
    decreases users.len(),
{
    if users.len() == 0 {
        Seq::empty()
    } else if users.len() == 1 {
        json_user_object(users.last())
    } else {
        json_user_list(users.drop_last()) + ", "@ + json_user_object(users.last())
    }
}

/// Renders users as JSON text.
pub struct JsonUserView;

impl UserView for JsonUserView {
    open spec fn user_rendering(&self, user: User) -> Seq<char> {
        json_user_object(user)
    }

    open spec fn users_rendering(&self, users: Seq<User>) -> Seq<char> {
        "["@ + json_user_list(users) + "]"@
    }

    open spec fn message_rendering(&self, message: Seq<char>) -> Seq<char> {
        "{ \"status\": \"success\", \"message\": \""@ + message + "\" }"@
    }

    open spec fn error_rendering(&self, error: Seq<char>) -> Seq<char> {
        "{ \"status\": \"error\", \"message\": \""@ + error + "\" }"@
    }

    open spec fn not_found_rendering(&self, id: u32) -> Seq<char> {
        "{ \"status\": \"error\", \"message\": \"User with ID "@ + dec_rep(id as nat)
            + " not found\" }"@
    }

    fn display_user(&self, user: &User) -> (r: String) {
        let r = "{ \"id\": ".to_owned().concat(fmt_u32(user.id).as_str()).concat(
            ", \"name\": \"",
        ).concat(user.name.as_str()).concat("\", \"email\": \"").concat(
            user.email.as_str(),
        ).concat("\" }");
        proof {
            assert(r@ =~= json_user_object(*user));
        }
        r
    }

    fn display_users(&self, users: &Vec<&User>) -> (r: String) {
        let ghost target = users@.map_values(|u: &User| *u);
        let mut body = String::new();
        let mut i: usize = 0;
        while i < users.len()
            invariant
                i <= users@.len(),
                target == users@.map_values(|u: &User| *u),
                body@ == json_user_list(target.take(i as int)),
            decreases users@.len() - i,
        {
            proof {
                assert(target[i as int] == *users@[i as int]);
            }
            if i > 0 {
                body = body.concat(", ");
            }
            body = body.concat(self.display_user(users[i]).as_str());
            proof {
                assert(target.take(i + 1).drop_last() =~= target.take(i as int));
                assert(target.take(i + 1).last() == target[i as int]);
                assert(body@ =~= json_user_list(target.take(i + 1)));
            }
            i += 1;
        }
        proof {
            assert(target.take(users@.len() as int) =~= target);
        }
        let r = "[".to_owned().concat(body.as_str()).concat("]");
        proof {
            assert(r@ =~= "["@ + json_user_list(target) + "]"@);
        }
        r
    }

    fn display_message(&self, message: &str) -> (r: String) {
        let r = "{ \"status\": \"success\", \"message\": \"".to_owned().concat(message).concat(
            "\" }",
        );
        proof {
            assert(r@ =~= self.message_rendering(message@));
        }
        r
    }

    fn display_error(&self, error: &str) -> (r: String) {
        let r = "{ \"status\": \"error\", \"message\": \"".to_owned().concat(error).concat(
            "\" }",
        );
        proof {
            assert(r@ =~= self.error_rendering(error@));
        }
        r
    }

    fn display_user_not_found(&self, id: u32) -> (r: String) {
        let r = "{ \"status\": \"error\", \"message\": \"User with ID ".to_owned().concat(
            fmt_u32(id).as_str(),
        ).concat(" not found\" }");
        proof {
            assert(r@ =~= self.not_found_rendering(id));
        }
        r
    }
}

/// Routes caller commands to the model and returns what the view rendered.
pub struct UserController<V: UserView> {
    pub model: UserModel,
    pub view: V,
}

impl<V: UserView> UserController<V> {
    pub fn new(model: UserModel, view: V) -> (r: UserController<V>)
        ensures
            r.model == model,
            r.view == view,
    {
        UserController { model, view }
    }

    /// Validates and stores a user; the result is the view's rendering of
    /// the outcome: a validation error, a duplicate-id error, or success.
    pub fn add_user(&mut self, id: u32, name: String, email: String) -> (r: String)
        requires
            old(self).model.wf(),
        ensures
            final(self).model.wf(),
            final(self).view == old(self).view,
            ({
                let m = old(self).model.users@;
                if !valid_name(name@) {
                    final(self).model == old(self).model && r@ == old(self).view.error_rendering(
                        "Name cannot be empty"@,
                    )
                } else if !valid_email(email@) {
                    final(self).model == old(self).model && r@ == old(self).view.error_rendering(
                        "Invalid email address"@,
                    )
                } else if user_index(m, id) != -1 {
                    final(self).model == old(self).model && r@ == old(self).view.error_rendering(
                        "User with ID "@ + dec_rep(id as nat) + " already exists"@,
                    )
                } else {
                    final(self).model.users@ == m.push(User { id, name, email }) && r@ == old(
                        self,
                    ).view.message_rendering("User added successfully"@)
                }
            }),
    {
        match User::new(id, name, email) {
            Ok(user) => match self.model.add_user(user) {
                Ok(()) => self.view.display_message("User added successfully"),
                Err(e) => self.view.display_error(e.as_str()),
            },
            Err(e) => self.view.display_error(e.as_str()),
        }
    }

    /// Renders the user under an id, or the not-found notice.
    pub fn show_user(&self, id: u32) -> (r: String)
        ensures
            ({
                let j = user_index(self.model.users@, id);
                if j >= 0 {
                    r@ == self.view.user_rendering(self.model.users@[j])
                } else {
                    r@ == self.view.not_found_rendering(id)
                }
            }),
    {
        match self.model.get_user(id) {
            Some(user) => self.view.display_user(user),
            None => self.view.display_user_not_found(id),
        }
    }

    /// Renders every stored user.
    pub fn show_all_users(&self) -> (r: String)
        ensures
            r@ == self.view.users_rendering(self.model.users@),
    {
        let users = self.model.get_all_users();
        proof {
            assert(users@.map_values(|u: &User| *u) =~= self.model.users@);
        }
        self.view.display_users(&users)
    }

    /// Removes the user under an id; the result reports what happened.
    pub fn remove_user(&mut self, id: u32) -> (r: String)
        requires
            old(self).model.wf(),
        ensures
            final(self).model.wf(),
            final(self).view == old(self).view,
            ({
                let j = user_index(old(self).model.users@, id);
                if j >= 0 {
                    final(self).model.users@ == old(self).model.users@.remove(j) && r@ == old(
                        self,
                    ).view.message_rendering("User removed successfully"@)
                } else {
                    final(self).model == old(self).model && r@ == old(
                        self,
                    ).view.not_found_rendering(id)
                }
            }),
    {
        match self.model.remove_user(id) {
            Some(_) => self.view.display_message("User removed successfully"),
            None => self.view.display_user_not_found(id),
        }
    }

    /// Renames the user under an id, if the new name passes validation.
    pub fn update_user_name(&mut self, id: u32, new_name: String) -> (r: String)
        ensures
            final(self).view == old(self).view,
            ({
                let m = old(self).model.users@;
                let j = user_index(m, id);
                if j == -1 {
                    final(self).model == old(self).model && r@ == old(
                        self,
                    ).view.not_found_rendering(id)
                } else if valid_name(new_name@) {
                    final(self).model.users@ == m.update(
                        j,
                        User { name: new_name, ..m[j] },
                    ) && r@ == old(self).view.message_rendering("User name updated successfully"@)
                } else {
                    final(self).model.users@ == old(self).model.users@ && r@ == old(
                        self,
                    ).view.error_rendering("Name cannot be empty"@)
                }
            }),
    {
        let outcome = match self.model.get_user_mut(id) {
            Some(user) => Some(user.set_name(new_name)),
            None => None,
        };
        proof {
            let m = old(self).model.users@;
            let j = user_index(m, id);
            lemma_user_index(m, id);
            if j != -1 && !(outcome matches Some(Ok(()))) {
                assert(self.model.users@ =~= m.update(j, m[j]));
                assert(self.model.users@ =~= m);
            }
            if j != -1 && (outcome matches Some(Ok(()))) {
                assert(self.model.users@ =~= m.update(j, User { name: new_name, ..m[j] }));
            }
        }
        match outcome {
            Some(Ok(())) => self.view.display_message("User name updated successfully"),
            Some(Err(e)) => self.view.display_error(e.as_str()),
            None => self.view.display_user_not_found(id),
        }
    }

    /// Changes the email of the user under an id, if it passes validation.
    pub fn update_user_email(&mut self, id: u32, new_email: String) -> (r: String)
        ensures
            final(self).view == old(self).view,
            ({
                let m = old(self).model.users@;
                let j = user_index(m, id);
                if j == -1 {
                    final(self).model == old(self).model && r@ == old(
                        self,
                    ).view.not_found_rendering(id)
                } else if valid_email(new_email@) {
                    final(self).model.users@ == m.update(
                        j,
                        User { email: new_email, ..m[j] },
                    ) && r@ == old(self).view.message_rendering("User email updated successfully"@)
                } else {
                    final(self).model.users@ == old(self).model.users@ && r@ == old(
                        self,
                    ).view.error_rendering("Invalid email address"@)
                }
            }),
    {
        let outcome = match self.model.get_user_mut(id) {
            Some(user) => Some(user.set_email(new_email)),
            None => None,
        };
        proof {
            let m = old(self).model.users@;
            let j = user_index(m, id);
            lemma_user_index(m, id);
            if j != -1 && !(outcome matches Some(Ok(()))) {
                assert(self.model.users@ =~= m.update(j, m[j]));
                assert(self.model.users@ =~= m);
            }
            if j != -1 && (outcome matches Some(Ok(()))) {
                assert(self.model.users@ =~= m.update(j, User { email: new_email, ..m[j] }));
            }
        }
        match outcome {
            Some(Ok(())) => self.view.display_message("User email updated successfully"),
            Some(Err(e)) => self.view.display_error(e.as_str()),
            None => self.view.display_user_not_found(id),
        }
    }

    /// Renders how many users are stored.
    pub fn show_user_count(&self) -> (r: String)
        ensures
            r@ == self.view.message_rendering(
                "Total users: "@ + dec_rep(self.model.users@.len() as nat),
            ),
    {
        let msg = "Total users: ".to_owned().concat(fmt_usize(self.model.user_count()).as_str());
        proof {
            assert(msg@ =~= "Total users: "@ + dec_rep(self.model.users@.len() as nat));
        }
        self.view.display_message(msg.as_str())
    }
}

} // verus!
