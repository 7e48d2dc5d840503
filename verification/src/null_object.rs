//! Null-object stand-ins: a guest customer, a silent logger and an absent
//! database connection each give harmless default behaviour, so callers never
//! test for a missing collaborator.

use vstd::prelude::*;

use crate::state::sat_add_u32_spec;

verus! {

/// What every customer does; each implementor fixes its wording and effects
/// as spec functions.
pub trait Customer: Sized {
    /// The customer after one purchase.
    spec fn purchased(&self) -> Self;

    spec fn greeting(&self) -> Seq<char>;

    spec fn purchase_msg(&self, item: Seq<char>) -> Seq<char>;

    spec fn discount_spec(&self) -> u32;

    spec fn null_spec(&self) -> bool;

    spec fn name_spec(&self) -> Seq<char>;

    spec fn id_spec(&self) -> i32;

    fn greet(&self) -> (r: String)
        ensures
            r@ == self.greeting(),
    ;

    fn purchase(&mut self, item: &str) -> (r: String)
        ensures
            *final(self) == old(self).purchased(),
            r@ == old(self).purchase_msg(item@),
    ;

    fn get_discount_rate(&self) -> (r: u32)
        ensures
            r == self.discount_spec(),
    ;

    fn is_null(&self) -> (r: bool)
        ensures
            r == self.null_spec(),
    ;

    fn get_name(&self) -> (r: &str)
        ensures
            r@ == self.name_spec(),
    ;

    fn get_id(&self) -> (r: i32)
        ensures
            r == self.id_spec(),
    ;
}

/// A registered customer; purchases earn ten loyalty points each, and the
/// discount grows with the points.
#[derive(Debug, Clone)]
pub struct RealCustomer {
    pub id: i32,
    pub name: String,
    pub email: String,
    pub loyalty_points: u32,
}

impl RealCustomer {
    pub fn new(id: i32, name: String, email: String) -> (r: RealCustomer)
        ensures
            r.id == id,
            r.name == name,
            r.email == email,
            r.loyalty_points == 0,
    {
        RealCustomer { id, name, email, loyalty_points: 0 }
    }

    pub fn get_email(&self) -> (r: &str)
        ensures
            r@ == self.email@,
    {
        self.email.as_str()
    }

    pub fn get_loyalty_points(&self) -> (r: u32)
        ensures
            r == self.loyalty_points,
    {
        self.loyalty_points
    }
}

impl Customer for RealCustomer {
    open spec fn purchased(&self) -> RealCustomer {
        RealCustomer {
            loyalty_points: sat_add_u32_spec(self.loyalty_points as int, 10) as u32,
            ..*self
        }
    }

    open spec fn greeting(&self) -> Seq<char> {
        "Hello "@ + self.name@ + "! Welcome back!"@
    }

    open spec fn purchase_msg(&self, item: Seq<char>) -> Seq<char> {
        self.name@ + " purchased: "@ + item
    }

    /// Fifteen percent above one hundred points, ten above fifty, else five.
    open spec fn discount_spec(&self) -> u32 {
        if self.loyalty_points > 100 {
            15
        } else if self.loyalty_points > 50 {
            10
        } else {
            5
        }
    }

    open spec fn null_spec(&self) -> bool {
        false
    }

    open spec fn name_spec(&self) -> Seq<char> {
        self.name@
    }

    open spec fn id_spec(&self) -> i32 {
        self.id
    }

    fn greet(&self) -> (r: String) {
        let r = "Hello ".to_owned().concat(self.name.as_str()).concat("! Welcome back!");
        proof {
            assert(r@ =~= self.greeting());
        }
        r
    }

    fn purchase(&mut self, item: &str) -> (r: String) {
        let r = self.name.clone().concat(" purchased: ").concat(item);
        self.loyalty_points = if self.loyalty_points > u32::MAX - 10 {
            u32::MAX
        } else {
            self.loyalty_points + 10
        };
        proof {
            assert(r@ =~= old(self).purchase_msg(item@));
        }
        r
    }

    fn get_discount_rate(&self) -> (r: u32) {
        if self.loyalty_points > 100 {
            15
        } else if self.loyalty_points > 50 {
            10
        } else {
            5
        }
    }

    fn is_null(&self) -> (r: bool) {
        false
    }

    fn get_name(&self) -> (r: &str) {
        self.name.as_str()
    }

    fn get_id(&self) -> (r: i32) {
        self.id
    }
}

/// The guest stand-in: no identity, no points, no discount.
#[derive(Debug)]
pub struct NullCustomer;

impl Customer for NullCustomer {
    open spec fn purchased(&self) -> NullCustomer {
        NullCustomer
    }

    open spec fn greeting(&self) -> Seq<char> {
        "Welcome, guest!"@
    }

    open spec fn purchase_msg(&self, item: Seq<char>) -> Seq<char> {
        "Please register to purchase: "@ + item
    }

    open spec fn discount_spec(&self) -> u32 {
        0
    }

    open spec fn null_spec(&self) -> bool {
        true
    }

    open spec fn name_spec(&self) -> Seq<char> {
        "Guest"@
    }

    open spec fn id_spec(&self) -> i32 {
        (-1) as i32
    }

    fn greet(&self) -> (r: String) {
        "Welcome, guest!".to_owned()
    }

    fn purchase(&mut self, item: &str) -> (r: String) {
        let r = "Please register to purchase: ".to_owned().concat(item);
        proof {
            assert(r@ =~= old(self).purchase_msg(item@));
        }
        r
    }

    fn get_discount_rate(&self) -> (r: u32) {
        0
    }

    fn is_null(&self) -> (r: bool) {
        true
    }

    fn get_name(&self) -> (r: &str) {
        "Guest"
    }

    fn get_id(&self) -> (r: i32) {
        -1
    }
}

/// A real customer or the guest stand-in.
pub enum CustomerKind {
    Real(RealCustomer),
    Null(NullCustomer),
}

impl Customer for CustomerKind {
    open spec fn purchased(&self) -> CustomerKind {
        match self {
            CustomerKind::Real(c) => CustomerKind::Real(c.purchased()),
            CustomerKind::Null(n) => CustomerKind::Null(n.purchased()),
        }
    }

    open spec fn greeting(&self) -> Seq<char> {
        match self {
            CustomerKind::Real(c) => c.greeting(),
            CustomerKind::Null(n) => n.greeting(),
        }
    }

    open spec fn purchase_msg(&self, item: Seq<char>) -> Seq<char> {
        match self {
            CustomerKind::Real(c) => c.purchase_msg(item),
            CustomerKind::Null(n) => n.purchase_msg(item),
        }
    }

    open spec fn discount_spec(&self) -> u32 {
        match self {
            CustomerKind::Real(c) => c.discount_spec(),
            CustomerKind::Null(n) => n.discount_spec(),
        }
    }

    open spec fn null_spec(&self) -> bool {
        match self {
            CustomerKind::Real(c) => c.null_spec(),
            CustomerKind::Null(n) => n.null_spec(),
        }
    }

    open spec fn name_spec(&self) -> Seq<char> {
        match self {
            CustomerKind::Real(c) => c.name_spec(),
            CustomerKind::Null(n) => n.name_spec(),
        }
    }

    open spec fn id_spec(&self) -> i32 {
        match self {
            CustomerKind::Real(c) => c.id_spec(),
            CustomerKind::Null(n) => n.id_spec(),
        }
    }

    fn greet(&self) -> (r: String) {
        match self {
            CustomerKind::Real(c) => {
                let out = c.greet();
                proof {
                    assert(self.greeting() == c.greeting());
                }
                out
            },
            CustomerKind::Null(n) => {
                let out = n.greet();
                proof {
                    assert(self.greeting() == n.greeting());
                }
                out
            },
        }
    }

    fn purchase(&mut self, item: &str) -> (r: String) {
        match self {
            CustomerKind::Real(c) => c.purchase(item),
            CustomerKind::Null(n) => n.purchase(item),
        }
    }

    fn get_discount_rate(&self) -> (r: u32) {
        match self {
            CustomerKind::Real(c) => c.get_discount_rate(),
            CustomerKind::Null(n) => n.get_discount_rate(),
        }
    }

    fn is_null(&self) -> (r: bool) {
        match self {
            CustomerKind::Real(c) => c.is_null(),
            CustomerKind::Null(n) => n.is_null(),
        }
    }

    fn get_name(&self) -> (r: &str) {
        match self {
            CustomerKind::Real(c) => c.get_name(),
            CustomerKind::Null(n) => n.get_name(),
        }
    }

    fn get_id(&self) -> (r: i32) {
        match self {
            CustomerKind::Real(c) => c.get_id(),
            CustomerKind::Null(n) => n.get_id(),
        }
    }
}

/// The index of the first customer with the given id, or -1.
pub open spec fn customer_index(s: Seq<RealCustomer>, id: i32) -> int
    decreases s.len(),
{
    if s.len() == 0 {
        -1
    } else if s[0].id == id {
        0
    } else {
        let rest = customer_index(s.subrange(1, s.len() as int), id);
        if rest == -1 {
            -1
        } else {
            rest + 1
        }
    }
}

pub proof fn lemma_customer_index(s: Seq<RealCustomer>, id: i32)
    ensures
        customer_index(s, id) == -1 ==> forall|k: int| 0 <= k < s.len() ==> s[k].id != id,
        customer_index(s, id) != -1 ==> {
            let j = customer_index(s, id);
            0 <= j < s.len() && s[j].id == id && forall|k: int| 0 <= k < j ==> s[k].id != id
        },
    decreases s.len(),
{
    if s.len() > 0 && s[0].id != id {
        let rest = s.subrange(1, s.len() as int);
        lemma_customer_index(rest, id);
        assert(forall|k: int| 1 <= k < s.len() ==> #[trigger] s[k] == rest[k - 1]);
        if customer_index(rest, id) == -1 {
            assert(forall|k: int| 0 <= k < s.len() ==> #[trigger] s[k].id != id);
        } else {
            let j = customer_index(rest, id);
            assert(s[j + 1].id == id);
            assert(forall|k: int| 0 <= k < j + 1 ==> #[trigger] s[k].id != id);
        }
    }
}

/// Stores real customers under unique ids; a lookup that finds nobody hands
/// back the guest stand-in instead of nothing.
#[derive(Debug)]
pub struct CustomerRepository {
    pub customers: Vec<RealCustomer>,
}

impl CustomerRepository {
    /// Well-formedness: no two customers share an id.
    pub open spec fn wf(self) -> bool {
        forall|i: int, j: int|
            0 <= i < j < self.customers@.len() ==> #[trigger] self.customers@[i].id
                != #[trigger] self.customers@[j].id
    }

    /// An empty repository.
    pub fn new() -> (r: CustomerRepository)
        ensures
            r.customers@.len() == 0,
            r.wf(),
    {
        CustomerRepository { customers: Vec::new() }
    }

    /// Stores a customer; one already under the same id is replaced.
    pub fn add_customer(&mut self, customer: RealCustomer)
        requires
            old(self).wf(),
        ensures
            final(self).wf(),
            ({
                let s = old(self).customers@;
                let j = customer_index(s, customer.id);
                if j == -1 {
                    final(self).customers@ == s.push(customer)
                } else {
                    final(self).customers@ == s.update(j, customer)
                }
            }),
    {
        let ghost s = self.customers@;
        let mut i: usize = 0;
        while i < self.customers.len()
            invariant
                i <= s.len(),
                s == self.customers@,
                s == old(self).customers@,
                forall|a: int, b: int|
                    0 <= a < b < s.len() ==> (#[trigger] s[a].id) != (#[trigger] s[b].id),
                forall|k: int| 0 <= k < i ==> #[trigger] s[k].id != customer.id,
            decreases s.len() - i,
        {
            if self.customers[i].id == customer.id {
                proof {
                    lemma_customer_index(s, customer.id);
                    let j = customer_index(s, customer.id);
                    if j == -1 || j < i || j > i {
                        assert(false);
                    }
                }
                let ghost cid = customer.id;
                proof {
                    assert(s[i as int].id == cid);
                    assert(forall|k: int|
                        0 <= k < s.len() && k != i ==> (#[trigger] s[k].id) != cid);
                }
                self.customers[i] = customer;
                proof {
                    assert(self.customers@ =~= s.update(i as int, self.customers@[i as int]));
                    assert(forall|a: int, b: int|
                        0 <= a < b < self.customers@.len() ==> #[trigger] self.customers@[a].id
                            != #[trigger] self.customers@[b].id);
                }
                return ;
            }
            i += 1;
        }
        proof {
            lemma_customer_index(s, customer.id);
            if customer_index(s, customer.id) != -1 {
                assert(false);
            }
        }
        self.customers.push(customer);
        proof {
            assert(forall|a: int, b: int|
                0 <= a < b < self.customers@.len() ==> #[trigger] self.customers@[a].id
                    != #[trigger] self.customers@[b].id);
        }
    }

    /// The customer under an id, or the guest stand-in.
    pub fn find_customer(&self, id: i32) -> (r: CustomerKind)
        ensures
            ({
                let j = customer_index(self.customers@, id);
                if j >= 0 {
                    r matches CustomerKind::Real(c) && c == self.customers@[j]
                } else {
                    r is Null
                }
            }),
    {
        let ghost s = self.customers@;
        let mut i: usize = 0;
        while i < self.customers.len()
            invariant
                i <= s.len(),
                s == self.customers@,
                forall|k: int| 0 <= k < i ==> #[trigger] s[k].id != id,
            decreases s.len() - i,
        {
            if self.customers[i].id == id {
                proof {
                    lemma_customer_index(s, id);
                    let j = customer_index(s, id);
                    if j == -1 || j < i || j > i {
                        assert(false);
                    }
                }
                let c = &self.customers[i];
                return CustomerKind::Real(
                    RealCustomer {
                        id: c.id,
                        name: c.name.clone(),
                        email: c.email.clone(),
                        loyalty_points: c.loyalty_points,
                    },
                );
            }
            i += 1;
        }
        proof {
            lemma_customer_index(s, id);
            if customer_index(s, id) != -1 {
                assert(false);
            }
        }
        CustomerKind::Null(NullCustomer)
    }

    pub fn get_customer_count(&self) -> (r: usize)
        ensures
            r == self.customers@.len(),
    {
        self.customers.len()
    }
}

/// The ordering side of the shop: adds customers and serves orders.
pub struct CustomerService {
    pub repository: CustomerRepository,
}

impl CustomerService {
    pub fn new() -> (r: CustomerService)
        ensures
            r.repository.customers@.len() == 0,
            r.repository.wf(),
    {
        CustomerService { repository: CustomerRepository::new() }
    }

    /// Registers a fresh customer under the id.
    pub fn add_customer(&mut self, id: i32, name: String, email: String)
        requires
            old(self).repository.wf(),
        ensures
            final(self).repository.wf(),
            ({
                let s = old(self).repository.customers@;
                let j = customer_index(s, id);
                let c = RealCustomer { id, name, email, loyalty_points: 0 };
                if j == -1 {
                    final(self).repository.customers@ == s.push(c)
                } else {
                    final(self).repository.customers@ == s.update(j, c)
                }
            }),
    {
        let customer = RealCustomer::new(id, name, email);
        self.repository.add_customer(customer);
    }
}

/// What every logger does; the null logger renders nothing.
pub trait Logger {
    spec fn line_spec(&self, level: Seq<char>, message: Seq<char>) -> Seq<char>;

    spec fn null_spec(&self) -> bool;

    fn log(&self, level: &str, message: &str) -> (r: String)
        ensures
            r@ == self.line_spec(level@, message@),
    ;

    fn is_null(&self) -> (r: bool)
        ensures
            r == self.null_spec(),
    ;
}

/// Renders log lines as `[LEVEL] message`.
#[derive(Debug)]
pub struct ConsoleLogger;

impl Logger for ConsoleLogger {
    open spec fn line_spec(&self, level: Seq<char>, message: Seq<char>) -> Seq<char> {
        "["@ + level + "] "@ + message
    }

    open spec fn null_spec(&self) -> bool {
        false
    }

    fn log(&self, level: &str, message: &str) -> (r: String) {
        let r = "[".to_owned().concat(level).concat("] ").concat(message);
        proof {
            assert(r@ =~= self.line_spec(level@, message@));
        }
        r
    }

    fn is_null(&self) -> (r: bool) {
        false
    }
}

/// Renders log lines marked with the file they would go to.
#[derive(Debug)]
pub struct FileLogger {
    pub filename: String,
}

impl FileLogger {
    pub fn new(filename: String) -> (r: FileLogger)
        ensures
            r.filename == filename,
    {
        FileLogger { filename }
    }
}

impl Logger for FileLogger {
    open spec fn line_spec(&self, level: Seq<char>, message: Seq<char>) -> Seq<char> {
        "[FILE LOG to "@ + self.filename@ + "] ["@ + level + "] "@ + message
    }

    open spec fn null_spec(&self) -> bool {
        false
    }

    fn log(&self, level: &str, message: &str) -> (r: String) {
        let r = "[FILE LOG to ".to_owned().concat(self.filename.as_str()).concat("] [").concat(
            level,
        ).concat("] ").concat(message);
        proof {
            assert(r@ =~= self.line_spec(level@, message@));
        }
        r
    }

    fn is_null(&self) -> (r: bool) {
        false
    }
}

/// Swallows every line.
#[derive(Debug)]
pub struct NullLogger;

impl Logger for NullLogger {
    open spec fn line_spec(&self, level: Seq<char>, message: Seq<char>) -> Seq<char> {
        Seq::empty()
    }

    open spec fn null_spec(&self) -> bool {
        true
    }

    fn log(&self, level: &str, message: &str) -> (r: String) {
        let r = String::new();
        proof {
            assert(r@ =~= Seq::<char>::empty());
        }
        r
    }

    fn is_null(&self) -> (r: bool) {
        true
    }
}

/// Any of the three loggers.
pub enum LoggerKind {
    Console(ConsoleLogger),
    File(FileLogger),
    Null(NullLogger),
}

impl Logger for LoggerKind {
    open spec fn line_spec(&self, level: Seq<char>, message: Seq<char>) -> Seq<char> {
        match self {
            LoggerKind::Console(l) => l.line_spec(level, message),
            LoggerKind::File(l) => l.line_spec(level, message),
            LoggerKind::Null(l) => l.line_spec(level, message),
        }
    }

    open spec fn null_spec(&self) -> bool {
        match self {
            LoggerKind::Console(l) => l.null_spec(),
            LoggerKind::File(l) => l.null_spec(),
            LoggerKind::Null(l) => l.null_spec(),
        }
    }

    fn log(&self, level: &str, message: &str) -> (r: String) {
        match self {
            LoggerKind::Console(l) => {
                let out = l.log(level, message);
                proof {
                    assert(self.line_spec(level@, message@) == l.line_spec(level@, message@));
                }
                out
            },
            LoggerKind::File(l) => {
                let out = l.log(level, message);
                proof {
                    assert(self.line_spec(level@, message@) == l.line_spec(level@, message@));
                }
                out
            },
            LoggerKind::Null(l) => {
                let out = l.log(level, message);
                proof {
                    assert(self.line_spec(level@, message@) == l.line_spec(level@, message@));
                }
                out
            },
        }
    }

    fn is_null(&self) -> (r: bool) {
        match self {
            LoggerKind::Console(l) => l.is_null(),
            LoggerKind::File(l) => l.is_null(),
            LoggerKind::Null(l) => l.is_null(),
        }
    }
}

/// A program that logs its run; without a logger it runs silently through
/// the null logger.
pub struct Application {
    pub logger: LoggerKind,
    pub name: String,
}

impl Application {
    pub fn new(name: String, logger: Option<LoggerKind>) -> (r: Application)
        ensures
            r.name == name,
            match logger {
                Some(l) => r.logger == l,
                None => r.logger is Null,
            },
    {
        Application {
            name,
            logger: match logger {
                Some(l) => l,
                None => LoggerKind::Null(NullLogger),
            },
        }
    }

    /// The six log lines of one run, in order.
    pub fn run(&self) -> (r: Vec<String>)
        ensures
            r@.len() == 6,
            r@[0]@ == self.logger.line_spec("INFO"@, self.name@ + " application starting"@),
            r@[1]@ == self.logger.line_spec("DEBUG"@, "Processing data"@),
            r@[2]@ == self.logger.line_spec("DEBUG"@, "Processing step 1"@),
            r@[3]@ == self.logger.line_spec("DEBUG"@, "Processing step 2"@),
            r@[4]@ == self.logger.line_spec("DEBUG"@, "Processing step 3"@),
            r@[5]@ == self.logger.line_spec("INFO"@, self.name@ + " application finished"@),
    {
        let mut lines: Vec<String> = Vec::new();
        let starting = self.name.clone().concat(" application starting");
        proof {
            assert(starting@ =~= self.name@ + " application starting"@);
        }
        lines.push(self.logger.log("INFO", starting.as_str()));
        lines.push(self.logger.log("DEBUG", "Processing data"));
        lines.push(self.logger.log("DEBUG", "Processing step 1"));
        lines.push(self.logger.log("DEBUG", "Processing step 2"));
        lines.push(self.logger.log("DEBUG", "Processing step 3"));
        let finished = self.name.clone().concat(" application finished");
        proof {
            assert(finished@ =~= self.name@ + " application finished"@);
        }
        lines.push(self.logger.log("INFO", finished.as_str()));
        lines
    }
}

/// What every database connection does.
pub trait DatabaseConnection {
    spec fn query_spec(&self, query: Seq<char>) -> Result<Seq<Seq<char>>, Seq<char>>;

    spec fn connected_spec(&self) -> bool;

    spec fn null_spec(&self) -> bool;

    fn execute_query(&self, query: &str) -> (r: Result<Vec<String>, String>)
        ensures
            rows_result(r) == self.query_spec(query@),
    ;

    fn is_connected(&self) -> (r: bool)
        ensures
            r == self.connected_spec(),
    ;

    fn is_null(&self) -> (r: bool)
        ensures
            r == self.null_spec(),
    ;
}

/// Query rows or an error, lifted to the spec level.
pub open spec fn rows_result(r: Result<Vec<String>, String>) -> Result<Seq<Seq<char>>, Seq<char>> {
    match r {
        Ok(rows) => Ok(rows@.map_values(|s: String| s@)),
        Err(e) => Err(e@),
    }
}

/// A (simulated) live connection: queries echo what was asked.
#[derive(Debug)]
pub struct PostgreSQLConnection {
    pub connection_string: String,
    pub connected: bool,
}

impl PostgreSQLConnection {
    /// Accepts any non-empty connection string and connects.
    pub fn new(connection_string: String) -> (r: Result<PostgreSQLConnection, String>)
        ensures
            r is Ok <==> connection_string@.len() > 0,
            r is Ok ==> r->Ok_0.connection_string == connection_string && r->Ok_0.connected,
            r is Err ==> (r->Err_0)@ == "Invalid connection string"@,
    {
        if connection_string.as_str().unicode_len() == 0 {
            return Err("Invalid connection string".to_owned());
        }
        Ok(PostgreSQLConnection { connection_string, connected: true })
    }
}

impl DatabaseConnection for PostgreSQLConnection {
    open spec fn query_spec(&self, query: Seq<char>) -> Result<Seq<Seq<char>>, Seq<char>> {
        if self.connected {
            Ok(seq!["Result for: "@ + query])
        } else {
            Err("Not connected to database"@)
        }
    }

    open spec fn connected_spec(&self) -> bool {
        self.connected
    }

    open spec fn null_spec(&self) -> bool {
        false
    }

    fn execute_query(&self, query: &str) -> (r: Result<Vec<String>, String>) {
        if !self.connected {
            return Err("Not connected to database".to_owned());
        }
        let row = "Result for: ".to_owned().concat(query);
        let rows = vec![row];
        proof {
            assert(rows@.map_values(|s: String| s@) =~= seq!["Result for: "@ + query@]);
            assert(rows@.map_values(|s: String| s@)[0] =~= "Result for: "@ + query@);
        }
        Ok(rows)
    }

    fn is_connected(&self) -> (r: bool) {
        self.connected
    }

    fn is_null(&self) -> (r: bool) {
        false
    }
}

/// The stand-in connection: never connected, answers every query with one
/// fixed row.
#[derive(Debug)]
pub struct NullDatabaseConnection;

impl DatabaseConnection for NullDatabaseConnection {
    open spec fn query_spec(&self, query: Seq<char>) -> Result<Seq<Seq<char>>, Seq<char>> {
        Ok(seq!["No database connection available"@])
    }

    open spec fn connected_spec(&self) -> bool {
        false
    }

    open spec fn null_spec(&self) -> bool {
        true
    }

    fn execute_query(&self, query: &str) -> (r: Result<Vec<String>, String>) {
        let rows = vec!["No database connection available".to_owned()];
        proof {
            assert(rows@.map_values(|s: String| s@) =~= seq![
                "No database connection available"@,
            ]);
            assert(rows@.map_values(|s: String| s@)[0] =~= "No database connection available"@);
        }
        Ok(rows)
    }

    fn is_connected(&self) -> (r: bool) {
        false
    }

    fn is_null(&self) -> (r: bool) {
        true
    }
}

/// A live connection or the stand-in.
pub enum DbConnectionKind {
    Postgres(PostgreSQLConnection),
    Null(NullDatabaseConnection),
}

impl DatabaseConnection for DbConnectionKind {
    open spec fn query_spec(&self, query: Seq<char>) -> Result<Seq<Seq<char>>, Seq<char>> {
        match self {
            DbConnectionKind::Postgres(c) => c.query_spec(query),
            DbConnectionKind::Null(c) => c.query_spec(query),
        }
    }

    open spec fn connected_spec(&self) -> bool {
        match self {
            DbConnectionKind::Postgres(c) => c.connected_spec(),
            DbConnectionKind::Null(c) => c.connected_spec(),
        }
    }

    open spec fn null_spec(&self) -> bool {
        match self {
            DbConnectionKind::Postgres(c) => c.null_spec(),
            DbConnectionKind::Null(c) => c.null_spec(),
        }
    }

    fn execute_query(&self, query: &str) -> (r: Result<Vec<String>, String>) {
        match self {
            DbConnectionKind::Postgres(c) => {
                let out = c.execute_query(query);
                proof {
                    assert(self.query_spec(query@) == c.query_spec(query@));
                }
                out
            },
            DbConnectionKind::Null(c) => {
                let out = c.execute_query(query);
                proof {
                    assert(self.query_spec(query@) == c.query_spec(query@));
                }
                out
            },
        }
    }

    fn is_connected(&self) -> (r: bool) {
        match self {
            DbConnectionKind::Postgres(c) => c.is_connected(),
            DbConnectionKind::Null(c) => c.is_connected(),
        }
    }

    fn is_null(&self) -> (r: bool) {
        match self {
            DbConnectionKind::Postgres(c) => c.is_null(),
            DbConnectionKind::Null(c) => c.is_null(),
        }
    }
}

/// Fetches users over whatever connection it was given; without one it runs
/// against the stand-in.
pub struct DatabaseService {
    pub connection: DbConnectionKind,
}

impl DatabaseService {
    pub fn new(connection: Option<DbConnectionKind>) -> (r: DatabaseService)
        ensures
            match connection {
                Some(c) => r.connection == c,
                None => r.connection is Null,
            },
    {
        DatabaseService {
            connection: match connection {
                Some(c) => c,
                None => DbConnectionKind::Null(NullDatabaseConnection),
            },
        }
    }

    /// Runs the fixed user query over the connection.
    pub fn fetch_users(&self) -> (r: Result<Vec<String>, String>)
        ensures
            rows_result(r) == self.connection.query_spec("SELECT * FROM users"@),
    {
        self.connection.execute_query("SELECT * FROM users")
    }

    /// Whether a real, connected database stands behind this service.
    pub fn is_database_available(&self) -> (r: bool)
        ensures
            r == (self.connection.connected_spec() && !self.connection.null_spec()),
    {
        self.connection.is_connected() && !self.connection.is_null()
    }
}

} // verus!
