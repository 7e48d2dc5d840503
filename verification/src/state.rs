//! Explicit finite-state machines: a vending machine, a traffic light and a
//! game-character controller. Each machine owns one context record and exactly
//! one current state; events are dispatched to the current state, which
//! decides the next state and the result. Rejected events leave the context
//! unchanged.
//!
//! Money is held in integer minor units (cents). Time is held in whole
//! seconds (traffic light) or milliseconds (character); lengths and speeds of
//! the character are held in fixed-point integers, micro-units for positions
//! and milli-units per second for velocities.

use vstd::prelude::*;

use crate::util::dec_rep;
use crate::util::fmt_u32;

verus! {

// ---------------------------------------------------------------------------
// Vending machine
// ---------------------------------------------------------------------------

/// One product slot: identity, display name, price in cents, units in stock.
pub struct Product {
    pub id: String,
    pub name: String,
    pub price: u32,
    pub stock: u32,
}

/// The spec-level image of a product.
#[verifier::ext_equal]
pub struct ProductModel {
    pub id: Seq<char>,
    pub name: Seq<char>,
    pub price: nat,
    pub stock: nat,
}

impl View for Product {
    type V = ProductModel;

    open spec fn view(&self) -> ProductModel {
        ProductModel { id: self.id@, name: self.name@, price: self.price as nat, stock: self.stock as nat }
    }
}

impl Product {
    pub fn new(id: &str, name: &str, price: u32, stock: u32) -> (r: Product)
        ensures
            r@ == (ProductModel { id: id@, name: name@, price: price as nat, stock: stock as nat }),
    {
        Product { id: id.to_owned(), name: name.to_owned(), price, stock }
    }
}

/// The three vending states. Exactly one is current at any time.
#[derive(Clone, Copy, PartialEq, Eq, Structural)]
pub enum VendState {
    Idle,
    HasMoney,
    Dispensing,
}

/// The spec-level image of a whole vending machine.
#[verifier::ext_equal]
pub struct VendingModel {
    pub state: VendState,
    pub products: Seq<ProductModel>,
    pub inserted: nat,
    pub selected: Option<Seq<char>>,
    pub reserve: nat,
}

/// The index of the first product with the given id, or -1.
pub open spec fn product_index(ps: Seq<ProductModel>, id: Seq<char>) -> int
    decreases ps.len(),
{
    if ps.len() == 0 {
        -1
    } else if ps[0].id == id {
        0
    } else {
        let rest = product_index(ps.subrange(1, ps.len() as int), id);
        if rest == -1 {
            -1
        } else {
            rest + 1
        }
    }
}

pub proof fn lemma_product_index(ps: Seq<ProductModel>, id: Seq<char>)
    ensures
        product_index(ps, id) == -1 ==> forall|k: int| 0 <= k < ps.len() ==> ps[k].id != id,
        product_index(ps, id) != -1 ==> {
            let j = product_index(ps, id);
            0 <= j < ps.len() && ps[j].id == id && forall|k: int| 0 <= k < j ==> ps[k].id != id
        },
    decreases ps.len(),
{
    if ps.len() > 0 && ps[0].id != id {
        let rest = ps.subrange(1, ps.len() as int);
        lemma_product_index(rest, id);
        assert(forall|k: int| 1 <= k < ps.len() ==> #[trigger] ps[k] == rest[k - 1]);
        if product_index(rest, id) == -1 {
            assert(forall|k: int| 0 <= k < ps.len() ==> #[trigger] ps[k].id != id);
        } else {
            let j = product_index(rest, id);
            assert(ps[j + 1].id == id);
            assert(forall|k: int| 0 <= k < j + 1 ==> #[trigger] ps[k].id != id);
        }
    }
}

/// A sequence without the given id has no index for it.
pub proof fn lemma_product_index_absent(ps: Seq<ProductModel>, id: Seq<char>)
    requires
        forall|k: int| 0 <= k < ps.len() ==> (#[trigger] ps[k].id) != id,
    ensures
        product_index(ps, id) == -1,
{
    lemma_product_index(ps, id);
    if product_index(ps, id) != -1 {
        let j = product_index(ps, id);
        assert(ps[j].id != id);
    }
}

/// Messages of the vending machine, as the characters they must hold.
pub open spec fn msg_inserted(amount: nat, total: nat) -> Seq<char> {
    "Inserted "@ + dec_rep(amount) + "\u{a2}. Total: "@ + dec_rep(total) + "\u{a2}"@
}

pub open spec fn msg_not_found(id: Seq<char>) -> Seq<char> {
    "Product "@ + id + " not found"@
}

pub open spec fn msg_out_of_stock(name: Seq<char>) -> Seq<char> {
    "Product "@ + name + " is out of stock"@
}

pub open spec fn msg_insufficient(need: nat) -> Seq<char> {
    "Insufficient funds. Need "@ + dec_rep(need) + "\u{a2} more"@
}

pub open spec fn msg_selected(name: Seq<char>) -> Seq<char> {
    "Selected "@ + name + ". Dispensing..."@
}

pub open spec fn msg_cancelled(amount: nat) -> Seq<char> {
    "Transaction cancelled. Returned "@ + dec_rep(amount) + "\u{a2}"@
}

pub open spec fn msg_dispensed(name: Seq<char>, change: nat) -> Seq<char> {
    if change > 0 {
        "Dispensed "@ + name + ". Change: "@ + dec_rep(change) + "\u{a2}"@
    } else {
        "Dispensed "@ + name
    }
}

/// What inserting a coin does: in `Idle` or `HasMoney`, a positive amount is
/// added and the machine holds money; in `Dispensing`, or for a zero amount,
/// the event is rejected and nothing changes.
pub open spec fn step_insert_coin(m: VendingModel, amount: nat) -> (VendingModel, Result<
    Seq<char>,
    Seq<char>,
>) {
    if m.state == VendState::Dispensing {
        (m, Err("Currently dispensing. Please wait"@))
    } else if amount == 0 {
        (m, Err("Invalid coin amount"@))
    } else {
        (
            VendingModel { state: VendState::HasMoney, inserted: m.inserted + amount, ..m },
            Ok(msg_inserted(amount, m.inserted + amount)),
        )
    }
}

/// What selecting a product does: only in `HasMoney`, and only when the
/// product exists, has stock, is covered by the inserted money, and any
/// change can be paid out of the reserve; then the machine starts dispensing.
/// Every other case is rejected with the matching error and changes nothing.
pub open spec fn step_select(m: VendingModel, id: Seq<char>) -> (VendingModel, Result<
    Seq<char>,
    Seq<char>,
>) {
    if m.state == VendState::Idle {
        (m, Err("Please insert coins first"@))
    } else if m.state == VendState::Dispensing {
        (m, Err("Currently dispensing. Please wait"@))
    } else {
        let j = product_index(m.products, id);
        if j == -1 {
            (m, Err(msg_not_found(id)))
        } else {
            let p = m.products[j];
            if p.stock == 0 {
                (m, Err(msg_out_of_stock(p.name)))
            } else if m.inserted < p.price {
                (m, Err(msg_insufficient((p.price - m.inserted) as nat)))
            } else if m.inserted - p.price > 0 && m.reserve < m.inserted - p.price {
                (m, Err("Exact change required"@))
            } else {
                (
                    VendingModel { state: VendState::Dispensing, selected: Some(id), ..m },
                    Ok(msg_selected(p.name)),
                )
            }
        }
    }
}

/// What dispensing does: only in `Dispensing` with a selected product that is
/// still stocked, still paid for, and whose change the reserve covers; then
/// the stock falls by one, the change leaves the reserve, and the machine is
/// idle again with nothing inserted and nothing selected. Every rejection —
/// an exhausted product included — leaves the whole machine, state and
/// context alike, exactly as it was.
pub open spec fn step_dispense(m: VendingModel) -> (VendingModel, Result<Seq<char>, Seq<char>>) {
    if m.state == VendState::Idle {
        (m, Err("No product selected"@))
    } else if m.state == VendState::HasMoney {
        (m, Err("Please select a product first"@))
    } else if m.selected is None {
        (m, Err("No product selected"@))
    } else {
        let id = m.selected->0;
        let j = product_index(m.products, id);
        if j == -1 {
            (
                VendingModel { state: VendState::Idle, inserted: 0, selected: None, ..m },
                Ok(Seq::empty()),
            )
        } else {
            let p = m.products[j];
            if p.stock == 0 {
                (m, Err("Product out of stock"@))
            } else if m.inserted < p.price {
                (m, Err(msg_insufficient((p.price - m.inserted) as nat)))
            } else {
                let change = (m.inserted - p.price) as nat;
                if change > 0 && m.reserve < change {
                    (m, Err("Insufficient change available"@))
                } else {
                    (
                        VendingModel {
                            state: VendState::Idle,
                            products: m.products.update(
                                j,
                                ProductModel { stock: (p.stock - 1) as nat, ..p },
                            ),
                            inserted: 0,
                            selected: None,
                            reserve: (m.reserve - change) as nat,
                        },
                        Ok(msg_dispensed(p.name, change)),
                    )
                }
            }
        }
    }
}

/// What cancelling does: in `HasMoney` the money is returned and the machine
/// is idle; in `Idle` cancelling is an idempotent no-op; while dispensing it
/// is rejected.
pub open spec fn step_cancel(m: VendingModel) -> (VendingModel, Result<Seq<char>, Seq<char>>) {
    if m.state == VendState::Idle {
        (m, Ok("No transaction to cancel"@))
    } else if m.state == VendState::HasMoney {
        (
            VendingModel { state: VendState::Idle, inserted: 0, ..m },
            Ok(msg_cancelled(m.inserted)),
        )
    } else {
        (m, Err("Cannot cancel during dispensing"@))
    }
}

/// The result of a dispatch, lifted to the spec level.
pub open spec fn msg_result(r: Result<String, String>) -> Result<Seq<char>, Seq<char>> {
    match r {
        Ok(s) => Ok(s@),
        Err(s) => Err(s@),
    }
}

impl VendingModel {
    /// Well-formedness: product ids are unique, amounts fit the machine's
    /// registers, an idle machine holds no money, and only a dispensing
    /// machine holds a selection.
    pub open spec fn wf(self) -> bool {
        &&& forall|i: int, j: int|
            0 <= i < j < self.products.len() ==> #[trigger] self.products[i].id
                != #[trigger] self.products[j].id
        &&& forall|i: int|
            0 <= i < self.products.len() ==> (#[trigger] self.products[i].price <= u32::MAX
                && self.products[i].stock <= u32::MAX)
        &&& self.inserted <= u32::MAX
        &&& self.reserve <= u32::MAX
        &&& (self.state == VendState::Idle ==> self.inserted == 0)
    }
}

/// The vending machine: one current state, one context (products, inserted
/// money, selection, change reserve).
pub struct VendingMachine {
    pub current_state: VendState,
    pub products: Vec<Product>,
    pub inserted_amount: u32,
    pub selected_product: Option<String>,
    pub change_dispenser: u32,
}

impl View for VendingMachine {
    type V = VendingModel;

    open spec fn view(&self) -> VendingModel {
        VendingModel {
            state: self.current_state,
            products: self.products@.map_values(|p: Product| p@),
            inserted: self.inserted_amount as nat,
            selected: match self.selected_product {
                Some(s) => Some(s@),
                None => None,
            },
            reserve: self.change_dispenser as nat,
        }
    }
}

/// The name a state reports.
pub open spec fn vend_state_name(s: VendState) -> Seq<char> {
    match s {
        VendState::Idle => "Idle"@,
        VendState::HasMoney => "HasMoney"@,
        VendState::Dispensing => "Dispensing"@,
    }
}

fn find_index(products: &Vec<Product>, id: &str) -> (r: Option<usize>)
    ensures
        ({
            let ps = products@.map_values(|p: Product| p@);
            match r {
                Some(i) => i < ps.len() && product_index(ps, id@) == i as int,
                None => product_index(ps, id@) == -1,
            }
        }),
{
    let ghost ps = products@.map_values(|p: Product| p@);
    let mut i: usize = 0;
    while i < products.len()
        invariant
            ps == products@.map_values(|p: Product| p@),
            i <= ps.len(),
            ps.len() == products@.len(),
            forall|k: int| 0 <= k < i ==> #[trigger] ps[k].id != id@,
        decreases products@.len() - i,
    {
        if crate::util::str_eq(products[i].id.as_str(), id) {
            proof {
                lemma_product_index(ps, id@);
                let j = product_index(ps, id@);
                assert(ps[i as int].id == id@);
                if j == -1 {
                    assert(false);
                }
                if j < i {
                    assert(ps[j].id != id@);
                    assert(false);
                }
                if j > i {
                    assert(ps[i as int].id != id@);
                    assert(false);
                }
            }
            return Some(i);
        }
        i += 1;
    }
    proof {
        lemma_product_index(ps, id@);
        let j = product_index(ps, id@);
        if j != -1 {
            assert(ps[j].id != id@);
            assert(false);
        }
    }
    None
}

fn build_msg_inserted(amount: u32, total: u32) -> (r: String)
    ensures
        r@ == msg_inserted(amount as nat, total as nat),
{
    let r = "Inserted ".to_owned().concat(fmt_u32(amount).as_str()).concat(
        "\u{a2}. Total: ",
    ).concat(fmt_u32(total).as_str()).concat("\u{a2}");
    proof {
        assert(r@ =~= msg_inserted(amount as nat, total as nat));
    }
    r
}

fn build_msg_not_found(id: &str) -> (r: String)
    ensures
        r@ == msg_not_found(id@),
{
    let r = "Product ".to_owned().concat(id).concat(" not found");
    proof {
        assert(r@ =~= msg_not_found(id@));
    }
    r
}

fn build_msg_out_of_stock(name: &str) -> (r: String)
    ensures
        r@ == msg_out_of_stock(name@),
{
    let r = "Product ".to_owned().concat(name).concat(" is out of stock");
    proof {
        assert(r@ =~= msg_out_of_stock(name@));
    }
    r
}

fn build_msg_insufficient(need: u32) -> (r: String)
    ensures
        r@ == msg_insufficient(need as nat),
{
    let r = "Insufficient funds. Need ".to_owned().concat(fmt_u32(need).as_str()).concat(
        "\u{a2} more",
    );
    proof {
        assert(r@ =~= msg_insufficient(need as nat));
    }
    r
}

fn build_msg_selected(name: &str) -> (r: String)
    ensures
        r@ == msg_selected(name@),
{
    let r = "Selected ".to_owned().concat(name).concat(". Dispensing...");
    proof {
        assert(r@ =~= msg_selected(name@));
    }
    r
}

fn build_msg_cancelled(amount: u32) -> (r: String)
    ensures
        r@ == msg_cancelled(amount as nat),
{
    let r = "Transaction cancelled. Returned ".to_owned().concat(fmt_u32(amount).as_str()).concat(
        "\u{a2}",
    );
    proof {
        assert(r@ =~= msg_cancelled(amount as nat));
    }
    r
}

fn build_msg_dispensed(name: &str, change: u32) -> (r: String)
    ensures
        r@ == msg_dispensed(name@, change as nat),
{
    if change > 0 {
        let r = "Dispensed ".to_owned().concat(name).concat(". Change: ").concat(
            fmt_u32(change).as_str(),
        ).concat("\u{a2}");
        proof {
            assert(r@ =~= msg_dispensed(name@, change as nat));
        }
        r
    } else {
        let r = "Dispensed ".to_owned().concat(name);
        proof {
            assert(r@ =~= msg_dispensed(name@, change as nat));
        }
        r
    }
}

/// Behaviour of one vending state. Every state answers every event; which
/// pair (state, event) does what is fixed by the step functions.
pub trait VendingMachineState {
    /// Which of the three states this behaviour unit is bound to.
    spec fn tag(&self) -> VendState;

    fn insert_coin(&mut self, machine: &mut VendingMachine, amount: u32) -> (r: Result<
        String,
        String,
    >)
        requires
            old(machine)@.wf(),
            old(machine)@.state == old(self).tag(),
            old(machine)@.state != VendState::Dispensing && amount > 0 ==> old(machine)@.inserted
                + amount <= u32::MAX,
        ensures
            final(self).tag() == old(self).tag(),
            final(machine)@.wf(),
            final(machine)@ == step_insert_coin(old(machine)@, amount as nat).0,
            msg_result(r) == step_insert_coin(old(machine)@, amount as nat).1,
    ;

    fn select_product(&mut self, machine: &mut VendingMachine, product_id: &str) -> (r: Result<
        String,
        String,
    >)
        requires
            old(machine)@.wf(),
            old(machine)@.state == old(self).tag(),
        ensures
            final(self).tag() == old(self).tag(),
            final(machine)@.wf(),
            final(machine)@ == step_select(old(machine)@, product_id@).0,
            msg_result(r) == step_select(old(machine)@, product_id@).1,
    ;

    fn dispense(&mut self, machine: &mut VendingMachine) -> (r: Result<String, String>)
        requires
            old(machine)@.wf(),
            old(machine)@.state == old(self).tag(),
        ensures
            final(self).tag() == old(self).tag(),
            final(machine)@.wf(),
            final(machine)@ == step_dispense(old(machine)@).0,
            msg_result(r) == step_dispense(old(machine)@).1,
    ;

    fn cancel_transaction(&mut self, machine: &mut VendingMachine) -> (r: Result<String, String>)
        requires
            old(machine)@.wf(),
            old(machine)@.state == old(self).tag(),
        ensures
            final(self).tag() == old(self).tag(),
            final(machine)@.wf(),
            final(machine)@ == step_cancel(old(machine)@).0,
            msg_result(r) == step_cancel(old(machine)@).1,
    ;

    fn get_state_name(&self) -> (r: &'static str)
        ensures
            r@ == vend_state_name(self.tag()),
    ;

    fn get_available_actions(&self) -> (r: Vec<&'static str>)
        ensures
            r@.map_values(|s: &'static str| s@) == vend_actions(self.tag()),
    ;
}

/// The actions each state offers.
pub open spec fn vend_actions(s: VendState) -> Seq<Seq<char>> {
    match s {
        VendState::Idle => seq!["insert_coin"@],
        VendState::HasMoney => seq!["insert_coin"@, "select_product"@, "cancel_transaction"@],
        VendState::Dispensing => seq!["dispense"@],
    }
}

/// Waiting for coins.
pub struct IdleState;

/// Coins inserted, waiting for a selection.
pub struct HasMoneyState;

/// A product was selected and is about to be dispensed.
pub struct DispensingState;

fn accept_coin(machine: &mut VendingMachine, amount: u32) -> (r: Result<String, String>)
    requires
        old(machine)@.wf(),
        old(machine)@.state != VendState::Dispensing,
        amount > 0 ==> old(machine)@.inserted + amount <= u32::MAX,
    ensures
        final(machine)@.wf(),
        final(machine)@ == step_insert_coin(old(machine)@, amount as nat).0,
        msg_result(r) == step_insert_coin(old(machine)@, amount as nat).1,
{
    if amount == 0 {
        return Err("Invalid coin amount".to_owned());
    }
    machine.add_inserted_amount(amount);
    machine.set_state(VendState::HasMoney);
    let total = machine.get_inserted_amount();
    proof {
        assert(machine@ =~= step_insert_coin(old(machine)@, amount as nat).0);
    }
    Ok(build_msg_inserted(amount, total))
}

fn reject_while_dispensing(machine: &mut VendingMachine) -> (r: Result<String, String>)
    requires
        old(machine)@.wf(),
    ensures
        *final(machine) == *old(machine),
        final(machine)@.wf(),
        msg_result(r) == Err::<Seq<char>, Seq<char>>("Currently dispensing. Please wait"@),
{
    Err("Currently dispensing. Please wait".to_owned())
}

impl VendingMachineState for IdleState {
    open spec fn tag(&self) -> VendState {
        VendState::Idle
    }

    fn insert_coin(&mut self, machine: &mut VendingMachine, amount: u32) -> (r: Result<
        String,
        String,
    >) {
        accept_coin(machine, amount)
    }

    fn select_product(&mut self, machine: &mut VendingMachine, product_id: &str) -> (r: Result<
        String,
        String,
    >) {
        Err("Please insert coins first".to_owned())
    }

    fn dispense(&mut self, machine: &mut VendingMachine) -> (r: Result<String, String>) {
        Err("No product selected".to_owned())
    }

    fn cancel_transaction(&mut self, machine: &mut VendingMachine) -> (r: Result<String, String>) {
        Ok("No transaction to cancel".to_owned())
    }

    fn get_state_name(&self) -> (r: &'static str) {
        "Idle"
    }

    fn get_available_actions(&self) -> (r: Vec<&'static str>) {
        let v = vec!["insert_coin"];
        proof {
            assert(v@.map_values(|s: &'static str| s@) =~= vend_actions(VendState::Idle));
        }
        v
    }
}

impl VendingMachineState for HasMoneyState {
    open spec fn tag(&self) -> VendState {
        VendState::HasMoney
    }

    fn insert_coin(&mut self, machine: &mut VendingMachine, amount: u32) -> (r: Result<
        String,
        String,
    >) {
        accept_coin(machine, amount)
    }

    fn select_product(&mut self, machine: &mut VendingMachine, product_id: &str) -> (r: Result<
        String,
        String,
    >) {
        let idx = find_index(&machine.products, product_id);
        match idx {
            None => Err(build_msg_not_found(product_id)),
            Some(i) => {
                let price = machine.products[i].price;
                let stock = machine.products[i].stock;
                if stock == 0 {
                    Err(build_msg_out_of_stock(machine.products[i].name.as_str()))
                } else if machine.get_inserted_amount() < price {
                    Err(build_msg_insufficient(price - machine.get_inserted_amount()))
                } else {
                    let change = machine.get_inserted_amount() - price;
                    if change > 0 && !machine.can_make_change(change) {
                        Err("Exact change required".to_owned())
                    } else {
                        let name = machine.products[i].name.clone();
                        machine.set_selected_product(Some(product_id.to_owned()));
                        machine.set_state(VendState::Dispensing);
                        proof {
                            assert(machine@ =~= step_select(old(machine)@, product_id@).0);
                        }
                        Ok(build_msg_selected(name.as_str()))
                    }
                }
            },
        }
    }

    fn dispense(&mut self, machine: &mut VendingMachine) -> (r: Result<String, String>) {
        Err("Please select a product first".to_owned())
    }

    fn cancel_transaction(&mut self, machine: &mut VendingMachine) -> (r: Result<String, String>) {
        let amount = machine.clear_inserted_amount();
        machine.set_state(VendState::Idle);
        proof {
            assert(machine@ =~= step_cancel(old(machine)@).0);
        }
        Ok(build_msg_cancelled(amount))
    }

    fn get_state_name(&self) -> (r: &'static str) {
        "HasMoney"
    }

    fn get_available_actions(&self) -> (r: Vec<&'static str>) {
        let v = vec!["insert_coin", "select_product", "cancel_transaction"];
        proof {
            assert(v@.map_values(|s: &'static str| s@) =~= vend_actions(VendState::HasMoney));
        }
        v
    }
}

impl VendingMachineState for DispensingState {
    open spec fn tag(&self) -> VendState {
        VendState::Dispensing
    }

    fn insert_coin(&mut self, machine: &mut VendingMachine, amount: u32) -> (r: Result<
        String,
        String,
    >) {
        reject_while_dispensing(machine)
    }

    fn select_product(&mut self, machine: &mut VendingMachine, product_id: &str) -> (r: Result<
        String,
        String,
    >) {
        reject_while_dispensing(machine)
    }

    fn dispense(&mut self, machine: &mut VendingMachine) -> (r: Result<String, String>) {
        let product_id = match &machine.selected_product {
            Some(id) => id.clone(),
            None => {
                return Err("No product selected".to_owned());
            },
        };
        match find_index(&machine.products, product_id.as_str()) {
            None => {
                machine.clear_inserted_amount();
                machine.set_selected_product(None);
                machine.set_state(VendState::Idle);
                proof {
                    assert(machine@ =~= step_dispense(old(machine)@).0);
                }
                Ok(String::new())
            },
            Some(i) => {
                let price = machine.products[i].price;
                let stock = machine.products[i].stock;
                let inserted = machine.get_inserted_amount();
                if stock == 0 {
                    Err("Product out of stock".to_owned())
                } else if inserted < price {
                    Err(build_msg_insufficient(price - inserted))
                } else {
                    let change = inserted - price;
                    if change > 0 && !machine.can_make_change(change) {
                        Err("Insufficient change available".to_owned())
                    } else {
                        let name = machine.products[i].name.clone();
                        machine.products[i].stock = stock - 1;
                        if change > 0 {
                            let dispensed = machine.dispense_change(change);
                            assert(dispensed is Ok);
                        }
                        machine.clear_inserted_amount();
                        machine.set_selected_product(None);
                        machine.set_state(VendState::Idle);
                        proof {
                            let m0 = old(machine)@;
                            let j = product_index(m0.products, m0.selected->0);
                            assert(machine@.products =~= m0.products.update(
                                j,
                                ProductModel {
                                    stock: (m0.products[j].stock - 1) as nat,
                                    ..m0.products[j]
                                },
                            ));
                            assert(machine@ =~= step_dispense(m0).0);
                            assert(forall|a: int, b: int|
                                0 <= a < b < machine@.products.len()
                                    ==> #[trigger] machine@.products[a].id
                                    != #[trigger] machine@.products[b].id);
                            assert(forall|k: int|
                                0 <= k < machine@.products.len()
                                    ==> (#[trigger] machine@.products[k].price <= u32::MAX
                                    && machine@.products[k].stock <= u32::MAX));
                        }
                        Ok(build_msg_dispensed(name.as_str(), change))
                    }
                }
            },
        }
    }

    fn cancel_transaction(&mut self, machine: &mut VendingMachine) -> (r: Result<String, String>) {
        Err("Cannot cancel during dispensing".to_owned())
    }

    fn get_state_name(&self) -> (r: &'static str) {
        "Dispensing"
    }

    fn get_available_actions(&self) -> (r: Vec<&'static str>) {
        let v = vec!["dispense"];
        proof {
            assert(v@.map_values(|s: &'static str| s@) =~= vend_actions(VendState::Dispensing));
        }
        v
    }
}

/// A read-only snapshot of the machine for callers.
pub struct VendingMachineStatus {
    pub state: String,
    pub inserted_amount: u32,
    pub selected_product: Option<String>,
    pub available_actions: Vec<String>,
    pub change_available: u32,
}

impl VendingMachine {
    /// A machine stocked with the four standard products and a change reserve
    /// of 1000 cents, idle and empty.
    pub fn new() -> (r: VendingMachine)
        ensures
            r@.wf(),
            r@.state == VendState::Idle,
            r@.inserted == 0,
            r@.selected is None,
            r@.reserve == 1000,
            r@.products.len() == 4,
            r@.products[0] == (ProductModel { id: "A1"@, name: "Soda"@, price: 150, stock: 10 }),
            r@.products[1] == (ProductModel { id: "B1"@, name: "Chips"@, price: 125, stock: 8 }),
            r@.products[2] == (ProductModel { id: "C1"@, name: "Candy"@, price: 100, stock: 15 }),
            r@.products[3] == (ProductModel { id: "D1"@, name: "Water"@, price: 75, stock: 20 }),
    {
        proof {
            reveal_strlit("A1");
            reveal_strlit("B1");
            reveal_strlit("C1");
            reveal_strlit("D1");
        }
        let mut machine = VendingMachine {
            current_state: VendState::Idle,
            products: Vec::new(),
            inserted_amount: 0,
            selected_product: None,
            change_dispenser: 1000,
        };
        let ghost p0 = ProductModel { id: "A1"@, name: "Soda"@, price: 150, stock: 10 };
        let ghost p1 = ProductModel { id: "B1"@, name: "Chips"@, price: 125, stock: 8 };
        let ghost p2 = ProductModel { id: "C1"@, name: "Candy"@, price: 100, stock: 15 };
        let ghost p3 = ProductModel { id: "D1"@, name: "Water"@, price: 75, stock: 20 };
        proof {
            assert(machine@.products =~= Seq::<ProductModel>::empty());
            assert(machine@.wf());
        }
        machine.add_product(Product::new("A1", "Soda", 150, 10));
        proof {
            lemma_product_index_absent(Seq::<ProductModel>::empty(), "A1"@);
            assert(machine@.products =~= seq![p0]);
            assert(machine@.wf());
        }
        machine.add_product(Product::new("B1", "Chips", 125, 8));
        proof {
            assert(seq![p0][0] == p0);
            assert("A1"@[0] == 'A');
            assert("B1"@[0] == 'B');
            assert('A' != 'B');
            assert("A1"@ != "B1"@);
            lemma_product_index_absent(seq![p0], "B1"@);
            assert(machine@.products =~= seq![p0, p1]);
            assert(machine@.wf());
        }
        machine.add_product(Product::new("C1", "Candy", 100, 15));
        proof {
            assert(seq![p0, p1][0] == p0 && seq![p0, p1][1] == p1);
            assert("C1"@[0] == 'C');
            assert("A1"@ != "C1"@);
            assert("B1"@ != "C1"@);
            lemma_product_index_absent(seq![p0, p1], "C1"@);
            assert(machine@.products =~= seq![p0, p1, p2]);
            assert(machine@.wf());
        }
        machine.add_product(Product::new("D1", "Water", 75, 20));
        proof {
            assert(seq![p0, p1, p2][0] == p0 && seq![p0, p1, p2][1] == p1 && seq![p0, p1, p2][2]
                == p2);
            assert("D1"@[0] == 'D');
            assert("A1"@ != "D1"@);
            assert("B1"@ != "D1"@);
            assert("C1"@ != "D1"@);
            lemma_product_index_absent(seq![p0, p1, p2], "D1"@);
            assert(machine@.products =~= seq![p0, p1, p2, p3]);
            assert(machine@.wf());
        }
        machine
    }

    /// Installs a state; the context is untouched.
    pub fn set_state(&mut self, state: VendState)
        ensures
            final(self)@ == (VendingModel { state, ..old(self)@ }),
            final(self).products == old(self).products,
            final(self).inserted_amount == old(self).inserted_amount,
            final(self).selected_product == old(self).selected_product,
            final(self).change_dispenser == old(self).change_dispenser,
    {
        self.current_state = state;
        proof {
            assert(self@ =~= (VendingModel { state, ..old(self)@ }));
        }
    }

    pub fn insert_coin(&mut self, amount: u32) -> (r: Result<String, String>)
        requires
            old(self)@.wf(),
            old(self)@.state != VendState::Dispensing && amount > 0 ==> old(self)@.inserted
                + amount <= u32::MAX,
        ensures
            final(self)@.wf(),
            final(self)@ == step_insert_coin(old(self)@, amount as nat).0,
            msg_result(r) == step_insert_coin(old(self)@, amount as nat).1,
    {
        match self.current_state {
            VendState::Idle => {
                let mut s = IdleState;
                s.insert_coin(self, amount)
            },
            VendState::HasMoney => {
                let mut s = HasMoneyState;
                s.insert_coin(self, amount)
            },
            VendState::Dispensing => {
                let mut s = DispensingState;
                s.insert_coin(self, amount)
            },
        }
    }

    pub fn select_product(&mut self, product_id: &str) -> (r: Result<String, String>)
        requires
            old(self)@.wf(),
        ensures
            final(self)@.wf(),
            final(self)@ == step_select(old(self)@, product_id@).0,
            msg_result(r) == step_select(old(self)@, product_id@).1,
    {
        match self.current_state {
            VendState::Idle => {
                let mut s = IdleState;
                s.select_product(self, product_id)
            },
            VendState::HasMoney => {
                let mut s = HasMoneyState;
                s.select_product(self, product_id)
            },
            VendState::Dispensing => {
                let mut s = DispensingState;
                s.select_product(self, product_id)
            },
        }
    }

    pub fn dispense(&mut self) -> (r: Result<String, String>)
        requires
            old(self)@.wf(),
        ensures
            final(self)@.wf(),
            final(self)@ == step_dispense(old(self)@).0,
            msg_result(r) == step_dispense(old(self)@).1,
    {
        match self.current_state {
            VendState::Idle => {
                let mut s = IdleState;
                s.dispense(self)
            },
            VendState::HasMoney => {
                let mut s = HasMoneyState;
                s.dispense(self)
            },
            VendState::Dispensing => {
                let mut s = DispensingState;
                s.dispense(self)
            },
        }
    }

    pub fn cancel_transaction(&mut self) -> (r: Result<String, String>)
        requires
            old(self)@.wf(),
        ensures
            final(self)@.wf(),
            final(self)@ == step_cancel(old(self)@).0,
            msg_result(r) == step_cancel(old(self)@).1,
    {
        match self.current_state {
            VendState::Idle => {
                let mut s = IdleState;
                s.cancel_transaction(self)
            },
            VendState::HasMoney => {
                let mut s = HasMoneyState;
                s.cancel_transaction(self)
            },
            VendState::Dispensing => {
                let mut s = DispensingState;
                s.cancel_transaction(self)
            },
        }
    }

    /// Adds a product; an existing slot with the same id is replaced, so ids
    /// stay unique.
    pub fn add_product(&mut self, product: Product)
        requires
            old(self)@.wf(),
        ensures
            final(self)@.wf() || old(self)@.state == VendState::Dispensing,
            final(self).current_state == old(self).current_state,
            final(self).inserted_amount == old(self).inserted_amount,
            final(self).selected_product == old(self).selected_product,
            final(self).change_dispenser == old(self).change_dispenser,
            ({
                let ps = old(self)@.products;
                let j = product_index(ps, product@.id);
                if j == -1 {
                    final(self)@.products == ps.push(product@)
                } else {
                    final(self)@.products == ps.update(j, product@)
                }
            }),
    {
        let ghost ps = self@.products;
        match find_index(&self.products, product.id.as_str()) {
            Some(i) => {
                self.products[i] = product;
                proof {
                    lemma_product_index(ps, ps[i as int].id);
                    assert(self@.products =~= ps.update(i as int, product@));
                }
            },
            None => {
                self.products.push(product);
                proof {
                    assert(self@.products =~= ps.push(product@));
                }
            },
        }
        proof {
            lemma_product_index(ps, product@.id);
            if old(self)@.state != VendState::Dispensing {
                assert(forall|a: int, b: int|
                    0 <= a < b < self@.products.len() ==> #[trigger] self@.products[a].id
                        != #[trigger] self@.products[b].id);
                assert(self@.wf());
            }
        }
    }

    /// The product at an id, if any.
    pub fn get_product(&self, product_id: &str) -> (r: Option<&Product>)
        ensures
            ({
                let j = product_index(self@.products, product_id@);
                match r {
                    Some(p) => j >= 0 && p@ == self@.products[j],
                    None => j == -1,
                }
            }),
    {
        match find_index(&self.products, product_id) {
            Some(i) => Some(&self.products[i]),
            None => None,
        }
    }

    /// A mutable borrow of the product at an id, if any.
    pub fn get_product_mut(&mut self, product_id: &str) -> (r: Option<&mut Product>)
        ensures
            ({
                let j = product_index(old(self)@.products, product_id@);
                match r {
                    Some(p) => j >= 0 && *p == old(self).products@[j]
                        && final(self).products@ == old(self).products@.update(j, *final(p)),
                    None => j == -1 && *final(self) == *old(self),
                }
            }),
            final(self).current_state == old(self).current_state,
            final(self).inserted_amount == old(self).inserted_amount,
            final(self).selected_product == old(self).selected_product,
            final(self).change_dispenser == old(self).change_dispenser,
    {
        match find_index(&self.products, product_id) {
            Some(i) => Some(&mut self.products[i]),
            None => None,
        }
    }

    pub fn get_inserted_amount(&self) -> (r: u32)
        ensures
            r as nat == self@.inserted,
    {
        self.inserted_amount
    }

    pub fn add_inserted_amount(&mut self, amount: u32)
        requires
            old(self)@.inserted + amount <= u32::MAX,
        ensures
            final(self)@ == (VendingModel {
                inserted: (old(self)@.inserted + amount) as nat,
                ..old(self)@
            }),
    {
        self.inserted_amount = self.inserted_amount + amount;
        proof {
            assert(self@ =~= (VendingModel { inserted: (old(self)@.inserted + amount) as nat, ..old(self)@ }));
        }
    }

    /// Empties the coin register and returns what it held.
    pub fn clear_inserted_amount(&mut self) -> (r: u32)
        ensures
            r as nat == old(self)@.inserted,
            final(self)@ == (VendingModel { inserted: 0, ..old(self)@ }),
    {
        let amount = self.inserted_amount;
        self.inserted_amount = 0;
        proof {
            assert(self@ =~= (VendingModel { inserted: 0, ..old(self)@ }));
        }
        amount
    }

    pub fn get_selected_product(&self) -> (r: Option<&String>)
        ensures
            match r {
                Some(s) => self@.selected == Some(s@),
                None => self@.selected is None,
            },
    {
        self.selected_product.as_ref()
    }

    pub fn set_selected_product(&mut self, product_id: Option<String>)
        ensures
            final(self)@ == (VendingModel {
                selected: match product_id {
                    Some(s) => Some(s@),
                    None => None,
                },
                ..old(self)@
            }),
    {
        self.selected_product = product_id;
        proof {
            assert(self@ =~= (VendingModel { selected: self@.selected, ..old(self)@ }));
        }
    }

    /// Whether the reserve covers an amount of change.
    pub fn can_make_change(&self, amount: u32) -> (r: bool)
        ensures
            r == (self@.reserve >= amount as nat),
    {
        self.change_dispenser >= amount
    }

    /// Pays change out of the reserve; `Err` exactly when the reserve is
    /// short, and then nothing changes.
    pub fn dispense_change(&mut self, amount: u32) -> (r: Result<(), String>)
        ensures
            r is Ok <==> old(self)@.reserve >= amount as nat,
            r is Ok ==> final(self)@ == (VendingModel {
                reserve: (old(self)@.reserve - amount as nat) as nat,
                ..old(self)@
            }),
            r is Err ==> *final(self) == *old(self) && (r->Err_0)@
                == "Insufficient change available"@,
    {
        if self.change_dispenser >= amount {
            self.change_dispenser = self.change_dispenser - amount;
            proof {
                assert(self@ =~= (VendingModel {
                    reserve: (old(self)@.reserve - amount as nat) as nat,
                    ..old(self)@
                }));
            }
            Ok(())
        } else {
            Err("Insufficient change available".to_owned())
        }
    }

    pub fn get_state_name(&self) -> (r: &'static str)
        ensures
            r@ == vend_state_name(self@.state),
    {
        match self.current_state {
            VendState::Idle => {
                let s = IdleState;
                s.get_state_name()
            },
            VendState::HasMoney => {
                let s = HasMoneyState;
                s.get_state_name()
            },
            VendState::Dispensing => {
                let s = DispensingState;
                s.get_state_name()
            },
        }
    }

    pub fn get_available_actions(&self) -> (r: Vec<&'static str>)
        ensures
            r@.map_values(|s: &'static str| s@) == vend_actions(self@.state),
    {
        match self.current_state {
            VendState::Idle => {
                let s = IdleState;
                s.get_available_actions()
            },
            VendState::HasMoney => {
                let s = HasMoneyState;
                s.get_available_actions()
            },
            VendState::Dispensing => {
                let s = DispensingState;
                s.get_available_actions()
            },
        }
    }

    pub fn get_products(&self) -> (r: &Vec<Product>)
        ensures
            r@.map_values(|p: Product| p@) == self@.products,
    {
        &self.products
    }

    /// A copy of the machine's externally visible condition.
    pub fn get_status(&self) -> (r: VendingMachineStatus)
        ensures
            r.state@ == vend_state_name(self@.state),
            r.inserted_amount as nat == self@.inserted,
            match r.selected_product {
                Some(s) => self@.selected == Some(s@),
                None => self@.selected is None,
            },
            r.available_actions@.map_values(|s: String| s@) == vend_actions(self@.state),
            r.change_available as nat == self@.reserve,
    {
        let actions = self.get_available_actions();
        let ghost target = vend_actions(self@.state);
        let mut owned_actions: Vec<String> = Vec::new();
        let mut i: usize = 0;
        while i < actions.len()
            invariant
                i <= actions@.len(),
                actions@.map_values(|s: &'static str| s@) == target,
                owned_actions@.len() == i,
                forall|k: int| 0 <= k < i ==> (#[trigger] owned_actions@[k])@ == target[k],
            decreases actions@.len() - i,
        {
            proof {
                assert(actions@.map_values(|s: &'static str| s@)[i as int] == actions@[i as int]@);
            }
            owned_actions.push(actions[i].to_owned());
            i += 1;
        }
        proof {
            assert(owned_actions@.map_values(|s: String| s@) =~= target);
        }
        VendingMachineStatus {
            state: self.get_state_name().to_owned(),
            inserted_amount: self.inserted_amount,
            selected_product: match &self.selected_product {
                Some(s) => Some(s.clone()),
                None => None,
            },
            available_actions: owned_actions,
            change_available: self.change_dispenser,
        }
    }
}

impl Default for VendingMachine {
    /// The same machine `new` builds.
    fn default() -> (r: VendingMachine)
        ensures
            r@.wf(),
            r@.state == VendState::Idle,
    {
        VendingMachine::new()
    }
}

// ---------------------------------------------------------------------------
// Traffic light
// ---------------------------------------------------------------------------

/// The three lamp colours; the current one is the whole of the light's state.
#[derive(Debug, Clone, Copy, PartialEq, Eq, Structural)]
pub enum TrafficColor {
    Red,
    Yellow,
    Green,
}

/// How long each colour holds, in seconds.
pub open spec fn duration_of(c: TrafficColor) -> nat {
    match c {
        TrafficColor::Red => 30,
        TrafficColor::Yellow => 5,
        TrafficColor::Green => 45,
    }
}

/// The colour name as the debug formatter prints it.
pub open spec fn color_debug(c: TrafficColor) -> Seq<char> {
    match c {
        TrafficColor::Red => "Red"@,
        TrafficColor::Yellow => "Yellow"@,
        TrafficColor::Green => "Green"@,
    }
}

/// The announcement each colour change makes.
pub open spec fn msg_changed(c: TrafficColor) -> Seq<char> {
    match c {
        TrafficColor::Red => "Traffic light changed from RED to GREEN"@,
        TrafficColor::Yellow => "Traffic light changed from YELLOW to RED"@,
        TrafficColor::Green => "Traffic light changed from GREEN to YELLOW"@,
    }
}

pub open spec fn msg_remaining(c: TrafficColor, remaining: nat) -> Seq<char> {
    "Current: "@ + color_debug(c) + " ("@ + dec_rep(remaining) + "s remaining)"@
}

/// A cyclic timed signal: one colour is lit; `tick` advances one second.
pub struct TrafficLight {
    pub current_color: TrafficColor,
    pub elapsed_time: u32,
    pub is_pedestrian_requested: bool,
    pub emergency_mode: bool,
}

impl TrafficLight {
    /// Well-formedness: the elapsed time never passes the current colour's
    /// duration at rest (it sits exactly at the duration only during a
    /// deferred green phase).
    pub open spec fn wf(self) -> bool {
        (self.elapsed_time as nat) <= duration_of(self.current_color)
    }
}

/// What a state's `next` does: `Red` yields to `Green`, `Yellow` to `Red`;
/// `Green` yields to `Yellow`, except that a pedestrian request pending when
/// the 45-second boundary is reached defers the change by one cycle and is
/// cleared — a single deferral, with the clock left running.
pub open spec fn step_next(l: TrafficLight, c: TrafficColor) -> (TrafficLight, Seq<char>) {
    match c {
        TrafficColor::Red => (
            TrafficLight { current_color: TrafficColor::Green, elapsed_time: 0, ..l },
            msg_changed(c),
        ),
        TrafficColor::Yellow => (
            TrafficLight { current_color: TrafficColor::Red, elapsed_time: 0, ..l },
            msg_changed(c),
        ),
        TrafficColor::Green => {
            if l.is_pedestrian_requested && l.elapsed_time <= 45 {
                (
                    TrafficLight { is_pedestrian_requested: false, ..l },
                    "Pedestrian crossing requested - extending GREEN light"@,
                )
            } else {
                (
                    TrafficLight { current_color: TrafficColor::Yellow, elapsed_time: 0, ..l },
                    msg_changed(c),
                )
            }
        },
    }
}

/// What one tick does: in emergency mode the light is forced to a fresh
/// `Red`; otherwise the second counter advances, and on reaching the
/// colour's duration the successor state is installed — or, on green with a
/// pending crossing request, the change is deferred once (see `step_next`).
pub open spec fn step_tick(l: TrafficLight) -> (TrafficLight, Seq<char>) {
    if l.emergency_mode {
        (
            TrafficLight { current_color: TrafficColor::Red, elapsed_time: 0, ..l },
            "Emergency mode: Traffic light set to RED"@,
        )
    } else {
        let e = (l.elapsed_time + 1) as u32;
        if e as nat >= duration_of(l.current_color) {
            step_next(TrafficLight { elapsed_time: e, ..l }, l.current_color)
        } else {
            (
                TrafficLight { elapsed_time: e, ..l },
                msg_remaining(l.current_color, (duration_of(l.current_color) - e) as nat),
            )
        }
    }
}

/// What setting or clearing emergency mode does: setting it forces a fresh
/// `Red` at once; clearing it only drops the flag.
pub open spec fn step_set_emergency(l: TrafficLight, enabled: bool) -> TrafficLight {
    if enabled {
        TrafficLight {
            current_color: TrafficColor::Red,
            elapsed_time: 0,
            emergency_mode: true,
            ..l
        }
    } else {
        TrafficLight { emergency_mode: false, ..l }
    }
}

/// Behaviour of one light state.
pub trait TrafficLightState {
    /// Which colour this behaviour unit is bound to.
    spec fn color_spec(&self) -> TrafficColor;

    fn next(&mut self, light: &mut TrafficLight) -> (r: Result<String, String>)
        ensures
            final(self).color_spec() == old(self).color_spec(),
            *final(light) == step_next(*old(light), old(self).color_spec()).0,
            msg_result(r) == Ok::<Seq<char>, Seq<char>>(
                step_next(*old(light), old(self).color_spec()).1,
            ),
    ;

    fn get_color(&self) -> (r: TrafficColor)
        ensures
            r == self.color_spec(),
    ;

    fn get_duration(&self) -> (r: u32)
        ensures
            r as nat == duration_of(self.color_spec()),
    ;

    fn can_transition(&self) -> (r: bool)
        ensures
            r,
    ;
}

pub struct RedLightState;

pub struct YellowLightState;

pub struct GreenLightState;

impl TrafficLightState for RedLightState {
    open spec fn color_spec(&self) -> TrafficColor {
        TrafficColor::Red
    }

    fn next(&mut self, light: &mut TrafficLight) -> (r: Result<String, String>) {
        light.set_state(TrafficColor::Green);
        Ok("Traffic light changed from RED to GREEN".to_owned())
    }

    fn get_color(&self) -> (r: TrafficColor) {
        TrafficColor::Red
    }

    fn get_duration(&self) -> (r: u32) {
        30
    }

    fn can_transition(&self) -> (r: bool) {
        true
    }
}

impl TrafficLightState for YellowLightState {
    open spec fn color_spec(&self) -> TrafficColor {
        TrafficColor::Yellow
    }

    fn next(&mut self, light: &mut TrafficLight) -> (r: Result<String, String>) {
        light.set_state(TrafficColor::Red);
        Ok("Traffic light changed from YELLOW to RED".to_owned())
    }

    fn get_color(&self) -> (r: TrafficColor) {
        TrafficColor::Yellow
    }

    fn get_duration(&self) -> (r: u32) {
        5
    }

    fn can_transition(&self) -> (r: bool) {
        true
    }
}

impl TrafficLightState for GreenLightState {
    open spec fn color_spec(&self) -> TrafficColor {
        TrafficColor::Green
    }

    fn next(&mut self, light: &mut TrafficLight) -> (r: Result<String, String>) {
        if light.is_pedestrian_requested() && light.get_elapsed_time() <= 45 {
            light.clear_pedestrian_request();
            return Ok("Pedestrian crossing requested - extending GREEN light".to_owned());
        }
        light.set_state(TrafficColor::Yellow);
        Ok("Traffic light changed from GREEN to YELLOW".to_owned())
    }

    fn get_color(&self) -> (r: TrafficColor) {
        TrafficColor::Green
    }

    fn get_duration(&self) -> (r: u32) {
        45
    }

    fn can_transition(&self) -> (r: bool) {
        true
    }
}

/// A read-only snapshot of the light.
pub struct TrafficLightStatus {
    pub color: TrafficColor,
    pub elapsed_time: u32,
    pub duration: u32,
    pub pedestrian_requested: bool,
    pub emergency_mode: bool,
    pub can_cross: bool,
}

impl TrafficLight {
    /// A fresh red light, no requests, no emergency.
    pub fn new() -> (r: TrafficLight)
        ensures
            r == (TrafficLight {
                current_color: TrafficColor::Red,
                elapsed_time: 0,
                is_pedestrian_requested: false,
                emergency_mode: false,
            }),
            r.wf(),
    {
        TrafficLight {
            current_color: TrafficColor::Red,
            elapsed_time: 0,
            is_pedestrian_requested: false,
            emergency_mode: false,
        }
    }

    /// Installs a colour and restarts its clock.
    pub fn set_state(&mut self, color: TrafficColor)
        ensures
            *final(self) == (TrafficLight { current_color: color, elapsed_time: 0, ..*old(self) }),
            final(self).wf(),
    {
        self.current_color = color;
        self.elapsed_time = 0;
    }

    /// One second passes; see `step_tick`. The result is always `Ok`.
    pub fn tick(&mut self) -> (r: Result<String, String>)
        requires
            old(self).wf(),
        ensures
            final(self).wf(),
            *final(self) == step_tick(*old(self)).0,
            msg_result(r) == Ok::<Seq<char>, Seq<char>>(step_tick(*old(self)).1),
    {
        self.elapsed_time = self.elapsed_time + 1;
        if self.emergency_mode {
            self.set_state(TrafficColor::Red);
            return Ok("Emergency mode: Traffic light set to RED".to_owned());
        }
        let duration = match self.current_color {
            TrafficColor::Red => 30,
            TrafficColor::Yellow => 5,
            TrafficColor::Green => 45,
        };
        if self.elapsed_time >= duration {
            match self.current_color {
                TrafficColor::Red => {
                    let mut s = RedLightState;
                    s.next(self)
                },
                TrafficColor::Yellow => {
                    let mut s = YellowLightState;
                    s.next(self)
                },
                TrafficColor::Green => {
                    let mut s = GreenLightState;
                    s.next(self)
                },
            }
        } else {
            let remaining = duration - self.elapsed_time;
            let msg = "Current: ".to_owned().concat(match self.current_color {
                TrafficColor::Red => "Red",
                TrafficColor::Yellow => "Yellow",
                TrafficColor::Green => "Green",
            }).concat(" (").concat(fmt_u32(remaining).as_str()).concat("s remaining)");
            proof {
                assert(msg@ =~= step_tick(*old(self)).1);
            }
            Ok(msg)
        }
    }

    pub fn request_pedestrian_crossing(&mut self)
        ensures
            *final(self) == (TrafficLight { is_pedestrian_requested: true, ..*old(self) }),
    {
        self.is_pedestrian_requested = true;
    }

    pub fn clear_pedestrian_request(&mut self)
        ensures
            *final(self) == (TrafficLight { is_pedestrian_requested: false, ..*old(self) }),
    {
        self.is_pedestrian_requested = false;
    }

    pub fn is_pedestrian_requested(&self) -> (r: bool)
        ensures
            r == self.is_pedestrian_requested,
    {
        self.is_pedestrian_requested
    }

    /// See `step_set_emergency`: enabling forces a fresh `Red` at once.
    pub fn set_emergency_mode(&mut self, enabled: bool)
        ensures
            *final(self) == step_set_emergency(*old(self), enabled),
            old(self).wf() ==> final(self).wf(),
    {
        self.emergency_mode = enabled;
        if enabled {
            self.set_state(TrafficColor::Red);
        }
    }

    pub fn is_emergency_mode(&self) -> (r: bool)
        ensures
            r == self.emergency_mode,
    {
        self.emergency_mode
    }

    pub fn get_current_color(&self) -> (r: TrafficColor)
        ensures
            r == self.current_color,
    {
        self.current_color
    }

    pub fn get_elapsed_time(&self) -> (r: u32)
        ensures
            r == self.elapsed_time,
    {
        self.elapsed_time
    }

    /// Crossing is allowed exactly while the light is green.
    pub fn can_cross(&self) -> (r: bool)
        ensures
            r == (self.current_color == TrafficColor::Green),
    {
        match self.current_color {
            TrafficColor::Green => true,
            _ => false,
        }
    }

    /// A copy of the light's externally visible condition.
    pub fn get_status(&self) -> (r: TrafficLightStatus)
        ensures
            r.color == self.current_color,
            r.elapsed_time == self.elapsed_time,
            r.duration as nat == duration_of(self.current_color),
            r.pedestrian_requested == self.is_pedestrian_requested,
            r.emergency_mode == self.emergency_mode,
            r.can_cross == (self.current_color == TrafficColor::Green),
    {
        TrafficLightStatus {
            color: self.current_color,
            elapsed_time: self.elapsed_time,
            duration: match self.current_color {
                TrafficColor::Red => 30,
                TrafficColor::Yellow => 5,
                TrafficColor::Green => 45,
            },
            pedestrian_requested: self.is_pedestrian_requested,
            emergency_mode: self.emergency_mode,
            can_cross: self.can_cross(),
        }
    }
}

impl Default for TrafficLight {
    /// The same light `new` builds.
    fn default() -> (r: TrafficLight)
        ensures
            r == (TrafficLight {
                current_color: TrafficColor::Red,
                elapsed_time: 0,
                is_pedestrian_requested: false,
                emergency_mode: false,
            }),
    {
        TrafficLight::new()
    }
}

/// The light after `n` consecutive ticks.
pub open spec fn run_ticks(l: TrafficLight, n: nat) -> TrafficLight
    decreases n,
{
    if n == 0 {
        l
    } else {
        step_tick(run_ticks(l, (n - 1) as nat)).0
    }
}

/// Ticks short of the duration only advance the clock.
proof fn lemma_ticks_advance(l: TrafficLight, k: nat)
    requires
        !l.emergency_mode,
        l.elapsed_time + k < duration_of(l.current_color),
    ensures
        run_ticks(l, k) == (TrafficLight { elapsed_time: (l.elapsed_time + k) as u32, ..l }),
    decreases k,
{
    if k == 0 {
        assert(run_ticks(l, 0) == l);
        assert(l == (TrafficLight { elapsed_time: (l.elapsed_time + 0) as u32, ..l }));
    } else {
        lemma_ticks_advance(l, (k - 1) as nat);
    }
}

// ---------------------------------------------------------------------------
// Game character controller
// ---------------------------------------------------------------------------

/// Player intents, consumed once per dispatch.
#[derive(Debug, Clone, Copy)]
pub enum GameInput {
    MoveLeft,
    MoveRight,
    Jump,
    Attack,
    Block,
    Idle,
}

/// Standing still; horizontal speed decays.
#[derive(Debug, Clone, Copy)]
pub struct IdleCharacterState;

/// Moving horizontally at walking speed.
#[derive(Debug, Clone, Copy)]
pub struct WalkingCharacterState;

/// Airborne until the ground check lands the character.
#[derive(Debug, Clone, Copy)]
pub struct JumpingCharacterState;

/// A time-boxed attack; the timer counts milliseconds.
#[derive(Debug, Clone, Copy)]
pub struct AttackingCharacterState {
    pub attack_timer: u32,
}

impl AttackingCharacterState {
    fn new() -> (r: AttackingCharacterState)
        ensures
            r.attack_timer == 0,
    {
        AttackingCharacterState { attack_timer: 0 }
    }
}

impl Default for AttackingCharacterState {
    /// A fresh attack with its timer at zero.
    fn default() -> (r: AttackingCharacterState)
        ensures
            r.attack_timer == 0,
    {
        AttackingCharacterState::new()
    }
}

/// The character's current behaviour, exactly one at a time.
#[derive(Debug, Clone, Copy)]
pub enum CharacterMode {
    Idle(IdleCharacterState),
    Walking(WalkingCharacterState),
    Jumping(JumpingCharacterState),
    Attacking(AttackingCharacterState),
}

/// The name each behaviour reports.
pub open spec fn mode_name(m: CharacterMode) -> Seq<char> {
    match m {
        CharacterMode::Idle(_) => "Idle"@,
        CharacterMode::Walking(_) => "Walking"@,
        CharacterMode::Jumping(_) => "Jumping"@,
        CharacterMode::Attacking(_) => "Attacking"@,
    }
}

/// Which state names a behaviour may hand over to.
pub open spec fn allowed_transition(m: CharacterMode, name: Seq<char>) -> bool {
    match m {
        CharacterMode::Idle(_) => name == "Walking"@ || name == "Jumping"@ || name
            == "Attacking"@,
        CharacterMode::Walking(_) => name == "Idle"@ || name == "Jumping"@ || name
            == "Attacking"@,
        CharacterMode::Jumping(_) => name == "Idle"@ || name == "Walking"@ || name
            == "Attacking"@,
        CharacterMode::Attacking(_) => name == "Idle"@ || name == "Walking"@,
    }
}

/// Addition on `u32` that stops at the top instead of wrapping.
pub open spec fn sat_add_u32_spec(a: int, b: int) -> int {
    if a + b > u32::MAX as int {
        u32::MAX as int
    } else {
        a + b
    }
}

fn sat_add_u32(a: u32, b: u32) -> (r: u32)
    ensures
        r as int == sat_add_u32_spec(a as int, b as int),
{
    if a > u32::MAX - b {
        u32::MAX
    } else {
        a + b
    }
}

/// Subtraction on `u32` that stops at zero.
pub open spec fn sat_sub_u32_spec(a: int, b: int) -> int {
    if a - b < 0 {
        0
    } else {
        a - b
    }
}

fn sat_sub_u32(a: u32, b: u32) -> (r: u32)
    ensures
        r as int == sat_sub_u32_spec(a as int, b as int),
{
    if a < b {
        0
    } else {
        a - b
    }
}

/// Addition on `i64` that stops at the ends instead of wrapping.
pub open spec fn sat_add_i64_spec(a: int, b: int) -> int {
    if a + b > i64::MAX as int {
        i64::MAX as int
    } else if a + b < i64::MIN as int {
        i64::MIN as int
    } else {
        a + b
    }
}

fn sat_add_i64(a: i64, b: i64) -> (r: i64)
    ensures
        r as int == sat_add_i64_spec(a as int, b as int),
{
    if b >= 0 {
        if a > i64::MAX - b {
            i64::MAX
        } else {
            a + b
        }
    } else {
        if a < i64::MIN - b {
            i64::MIN
        } else {
            a + b
        }
    }
}

/// A wide value forced into the `i32` range.
pub open spec fn clamp_i32_spec(x: int) -> int {
    if x > i32::MAX as int {
        i32::MAX as int
    } else if x < i32::MIN as int {
        i32::MIN as int
    } else {
        x
    }
}

fn clamp_i64_to_i32(x: i64) -> (r: i32)
    ensures
        r as int == clamp_i32_spec(x as int),
{
    if x > i32::MAX as i64 {
        i32::MAX
    } else if x < i32::MIN as i64 {
        i32::MIN
    } else {
        x as i32
    }
}

/// Four fifths of a speed, truncated toward zero as the machine divides.
pub open spec fn decay_speed(vx: int) -> int {
    if vx >= 0 {
        (vx * 4) / 5
    } else {
        -(((-vx) * 4) / 5)
    }
}

fn decay_speed_exec(vx: i32) -> (r: i32)
    ensures
        r as int == decay_speed(vx as int),
{
    if vx >= 0 {
        let scaled = (vx as u64) * 4;
        (scaled / 5) as i32
    } else {
        let mag = -(vx as i64);
        let scaled = (mag as u64) * 4;
        let q = (scaled / 5) as i64;
        (-q) as i32
    }
}

/// A character: one behaviour, a physics context in fixed-point units, and
/// resources. Positions are micro-units, velocities milli-units per second,
/// times milliseconds.
#[derive(Debug)]
pub struct GameCharacter {
    pub current_state: CharacterMode,
    pub position: (i64, i64),
    pub velocity: (i32, i32),
    pub health: u32,
    pub energy: u32,
    pub is_grounded: bool,
    pub facing_right: bool,
    pub animation_time: u32,
}

/// The physics part of one update: time and position advance, gravity pulls
/// while airborne, the ground stops a fall, and energy regenerates by one per
/// tick up to 100.
pub open spec fn step_phys(c: GameCharacter, dt: int) -> GameCharacter {
    let anim = sat_add_u32_spec(c.animation_time as int, dt);
    let px = sat_add_i64_spec(c.position.0 as int, c.velocity.0 as int * dt);
    let py0 = sat_add_i64_spec(c.position.1 as int, c.velocity.1 as int * dt);
    let vy0 = if !c.is_grounded {
        clamp_i32_spec(c.velocity.1 as int - (9800 * dt) / 1000)
    } else {
        c.velocity.1 as int
    };
    let py = if py0 <= 0 { 0 } else { py0 };
    let vy = if py0 <= 0 { 0 } else { vy0 };
    let grounded = if py0 <= 0 { true } else { c.is_grounded };
    let energy = if c.energy < 100 {
        if c.energy + 1 > 100 { 100 } else { c.energy as int + 1 }
    } else {
        c.energy as int
    };
    GameCharacter {
        position: (px as i64, py as i64),
        velocity: (c.velocity.0, vy as i32),
        is_grounded: grounded,
        energy: energy as u32,
        animation_time: anim as u32,
        ..c
    }
}

/// The behaviour part of one update, applied after the physics: idling decays
/// speed; walking stops below the epsilon of 100 milli-units; jumping ends on
/// the ground; an attack ends after 500 ms. Every behaviour change restarts
/// the animation clock.
pub open spec fn step_mode_update(c: GameCharacter, dt: int) -> (GameCharacter, Seq<char>) {
    match c.current_state {
        CharacterMode::Idle(_) => (
            GameCharacter { velocity: (decay_speed(c.velocity.0 as int) as i32, c.velocity.1), ..c },
            "Character is idle"@,
        ),
        CharacterMode::Walking(_) => {
            if -100 < c.velocity.0 && c.velocity.0 < 100 {
                (
                    GameCharacter {
                        current_state: CharacterMode::Idle(IdleCharacterState),
                        animation_time: 0,
                        ..c
                    },
                    "Stopped walking, now idle"@,
                )
            } else {
                (c, "Character is walking"@)
            }
        },
        CharacterMode::Jumping(_) => {
            if c.is_grounded {
                if c.velocity.0 > 100 || c.velocity.0 < -100 {
                    (
                        GameCharacter {
                            current_state: CharacterMode::Walking(WalkingCharacterState),
                            animation_time: 0,
                            ..c
                        },
                        "Landed and walking"@,
                    )
                } else {
                    (
                        GameCharacter {
                            current_state: CharacterMode::Idle(IdleCharacterState),
                            animation_time: 0,
                            ..c
                        },
                        "Landed and idle"@,
                    )
                }
            } else {
                (c, "Character is in the air"@)
            }
        },
        CharacterMode::Attacking(a) => {
            let t = sat_add_u32_spec(a.attack_timer as int, dt);
            if t >= 500 {
                if c.velocity.0 > 100 || c.velocity.0 < -100 {
                    (
                        GameCharacter {
                            current_state: CharacterMode::Walking(WalkingCharacterState),
                            animation_time: 0,
                            ..c
                        },
                        "Attack finished, now walking"@,
                    )
                } else {
                    (
                        GameCharacter {
                            current_state: CharacterMode::Idle(IdleCharacterState),
                            animation_time: 0,
                            ..c
                        },
                        "Attack finished, now idle"@,
                    )
                }
            } else {
                (
                    GameCharacter {
                        current_state: CharacterMode::Attacking(
                            AttackingCharacterState { attack_timer: t as u32 },
                        ),
                        ..c
                    },
                    "Character is attacking"@,
                )
            }
        },
    }
}

/// One whole update: physics, then the current behaviour's reaction.
pub open spec fn step_update(c: GameCharacter, dt: int) -> (GameCharacter, Seq<char>) {
    step_mode_update(step_phys(c, dt), dt)
}

/// What one input does, per behaviour and intent. Guarded transitions that
/// fail (jumping without ground or energy, attacking without energy, any act
/// while attacking) are rejected and change nothing; energy is consumed
/// atomically with the transition it pays for.
pub open spec fn step_input(c: GameCharacter, input: GameInput) -> (GameCharacter, Result<
    Seq<char>,
    Seq<char>,
>) {
    match c.current_state {
        CharacterMode::Idle(_) => match input {
            GameInput::MoveLeft => (
                GameCharacter {
                    current_state: CharacterMode::Walking(WalkingCharacterState),
                    animation_time: 0,
                    facing_right: false,
                    velocity: ((-5000) as i32, c.velocity.1),
                    ..c
                },
                Ok("Started walking left"@),
            ),
            GameInput::MoveRight => (
                GameCharacter {
                    current_state: CharacterMode::Walking(WalkingCharacterState),
                    animation_time: 0,
                    facing_right: true,
                    velocity: (5000, c.velocity.1),
                    ..c
                },
                Ok("Started walking right"@),
            ),
            GameInput::Jump => {
                if c.is_grounded && c.energy >= 20 {
                    (
                        GameCharacter {
                            current_state: CharacterMode::Jumping(JumpingCharacterState),
                            animation_time: 0,
                            energy: (c.energy - 20) as u32,
                            velocity: (c.velocity.0, 8000),
                            is_grounded: false,
                            ..c
                        },
                        Ok("Started jumping"@),
                    )
                } else {
                    (c, Err("Cannot jump (not grounded or insufficient energy)"@))
                }
            },
            GameInput::Attack => {
                if c.energy >= 15 {
                    (
                        GameCharacter {
                            current_state: CharacterMode::Attacking(
                                AttackingCharacterState { attack_timer: 0 },
                            ),
                            animation_time: 0,
                            energy: (c.energy - 15) as u32,
                            ..c
                        },
                        Ok("Started attacking"@),
                    )
                } else {
                    (c, Err("Insufficient energy to attack"@))
                }
            },
            _ => (c, Ok("No action taken"@)),
        },
        CharacterMode::Walking(_) => match input {
            GameInput::MoveLeft => (
                GameCharacter { facing_right: false, velocity: ((-5000) as i32, c.velocity.1), ..c },
                Ok("Walking left"@),
            ),
            GameInput::MoveRight => (
                GameCharacter { facing_right: true, velocity: (5000, c.velocity.1), ..c },
                Ok("Walking right"@),
            ),
            GameInput::Jump => {
                if c.is_grounded && c.energy >= 20 {
                    (
                        GameCharacter {
                            current_state: CharacterMode::Jumping(JumpingCharacterState),
                            animation_time: 0,
                            energy: (c.energy - 20) as u32,
                            velocity: (c.velocity.0, 8000),
                            is_grounded: false,
                            ..c
                        },
                        Ok("Jumped while walking"@),
                    )
                } else {
                    (c, Err("Cannot jump"@))
                }
            },
            GameInput::Idle => (
                GameCharacter {
                    current_state: CharacterMode::Idle(IdleCharacterState),
                    animation_time: 0,
                    ..c
                },
                Ok("Stopped walking"@),
            ),
            GameInput::Attack => {
                if c.energy >= 15 {
                    (
                        GameCharacter {
                            current_state: CharacterMode::Attacking(
                                AttackingCharacterState { attack_timer: 0 },
                            ),
                            animation_time: 0,
                            energy: (c.energy - 15) as u32,
                            ..c
                        },
                        Ok("Attacked while walking"@),
                    )
                } else {
                    (c, Err("Insufficient energy to attack"@))
                }
            },
            GameInput::Block => (c, Ok("Continuing to walk"@)),
        },
        CharacterMode::Jumping(_) => match input {
            GameInput::MoveLeft => (
                GameCharacter { facing_right: false, velocity: ((-3000) as i32, c.velocity.1), ..c },
                Ok("Air control: moving left"@),
            ),
            GameInput::MoveRight => (
                GameCharacter { facing_right: true, velocity: (3000, c.velocity.1), ..c },
                Ok("Air control: moving right"@),
            ),
            GameInput::Attack => {
                if c.energy >= 25 {
                    (
                        GameCharacter {
                            current_state: CharacterMode::Attacking(
                                AttackingCharacterState { attack_timer: 0 },
                            ),
                            animation_time: 0,
                            energy: (c.energy - 25) as u32,
                            ..c
                        },
                        Ok("Air attack!"@),
                    )
                } else {
                    (c, Err("Insufficient energy for air attack"@))
                }
            },
            GameInput::Jump => (c, Err("Cannot jump (not grounded or insufficient energy)"@)),
            _ => (c, Ok("Character continues jumping"@)),
        },
        CharacterMode::Attacking(_) => match input {
            GameInput::Attack => (c, Ok("Already attacking"@)),
            _ => (c, Err("Cannot act while attacking"@)),
        },
    }
}

/// Behaviour of one character state.
pub trait CharacterState {
    /// The mode this behaviour unit stands for.
    spec fn tag(&self) -> CharacterMode;

    fn update(&mut self, character: &mut GameCharacter, delta_time: u32) -> (r: Result<
        String,
        String,
    >)
        requires
            old(character).current_state == old(self).tag(),
        ensures
            *final(character) == step_mode_update(*old(character), delta_time as int).0,
            msg_result(r) == Ok::<Seq<char>, Seq<char>>(
                step_mode_update(*old(character), delta_time as int).1,
            ),
    ;

    fn handle_input(&mut self, character: &mut GameCharacter, input: GameInput) -> (r: Result<
        String,
        String,
    >)
        requires
            old(character).current_state == old(self).tag(),
        ensures
            *final(character) == step_input(*old(character), input).0,
            msg_result(r) == step_input(*old(character), input).1,
    ;

    fn get_state_name(&self) -> (r: &'static str)
        ensures
            r@ == mode_name(self.tag()),
    ;

    fn can_transition_to(&self, new_state: &str) -> (r: bool)
        ensures
            r == allowed_transition(self.tag(), new_state@),
    ;
}

impl CharacterState for IdleCharacterState {
    open spec fn tag(&self) -> CharacterMode {
        CharacterMode::Idle(IdleCharacterState)
    }

    fn update(&mut self, character: &mut GameCharacter, delta_time: u32) -> (r: Result<
        String,
        String,
    >) {
        let vx = character.velocity.0;
        let vy = character.velocity.1;
        character.set_velocity((decay_speed_exec(vx), vy));
        Ok("Character is idle".to_owned())
    }

    fn handle_input(&mut self, character: &mut GameCharacter, input: GameInput) -> (r: Result<
        String,
        String,
    >) {
        match input {
            GameInput::MoveLeft => {
                character.set_state(CharacterMode::Walking(WalkingCharacterState));
                character.set_facing_right(false);
                let vy = character.velocity.1;
                character.set_velocity((-5000, vy));
                Ok("Started walking left".to_owned())
            },
            GameInput::MoveRight => {
                character.set_state(CharacterMode::Walking(WalkingCharacterState));
                character.set_facing_right(true);
                let vy = character.velocity.1;
                character.set_velocity((5000, vy));
                Ok("Started walking right".to_owned())
            },
            GameInput::Jump => {
                if character.is_grounded() && character.consume_energy(20) {
                    character.set_state(CharacterMode::Jumping(JumpingCharacterState));
                    let vx = character.velocity.0;
                    character.set_velocity((vx, 8000));
                    character.set_grounded(false);
                    Ok("Started jumping".to_owned())
                } else {
                    Err("Cannot jump (not grounded or insufficient energy)".to_owned())
                }
            },
            GameInput::Attack => {
                if character.consume_energy(15) {
                    character.set_state(
                        CharacterMode::Attacking(AttackingCharacterState::new()),
                    );
                    Ok("Started attacking".to_owned())
                } else {
                    Err("Insufficient energy to attack".to_owned())
                }
            },
            _ => Ok("No action taken".to_owned()),
        }
    }

    fn get_state_name(&self) -> (r: &'static str) {
        "Idle"
    }

    fn can_transition_to(&self, new_state: &str) -> (r: bool) {
        crate::util::str_eq(new_state, "Walking") || crate::util::str_eq(new_state, "Jumping")
            || crate::util::str_eq(new_state, "Attacking")
    }
}

impl CharacterState for WalkingCharacterState {
    open spec fn tag(&self) -> CharacterMode {
        CharacterMode::Walking(WalkingCharacterState)
    }

    fn update(&mut self, character: &mut GameCharacter, delta_time: u32) -> (r: Result<
        String,
        String,
    >) {
        let vx = character.velocity.0;
        if vx > -100 && vx < 100 {
            character.set_state(CharacterMode::Idle(IdleCharacterState));
            return Ok("Stopped walking, now idle".to_owned());
        }
        Ok("Character is walking".to_owned())
    }

    fn handle_input(&mut self, character: &mut GameCharacter, input: GameInput) -> (r: Result<
        String,
        String,
    >) {
        match input {
            GameInput::MoveLeft => {
                character.set_facing_right(false);
                let vy = character.velocity.1;
                character.set_velocity((-5000, vy));
                Ok("Walking left".to_owned())
            },
            GameInput::MoveRight => {
                character.set_facing_right(true);
                let vy = character.velocity.1;
                character.set_velocity((5000, vy));
                Ok("Walking right".to_owned())
            },
            GameInput::Jump => {
                if character.is_grounded() && character.consume_energy(20) {
                    character.set_state(CharacterMode::Jumping(JumpingCharacterState));
                    let vx = character.velocity.0;
                    character.set_velocity((vx, 8000));
                    character.set_grounded(false);
                    Ok("Jumped while walking".to_owned())
                } else {
                    Err("Cannot jump".to_owned())
                }
            },
            GameInput::Idle => {
                character.set_state(CharacterMode::Idle(IdleCharacterState));
                Ok("Stopped walking".to_owned())
            },
            GameInput::Attack => {
                if character.consume_energy(15) {
                    character.set_state(
                        CharacterMode::Attacking(AttackingCharacterState::new()),
                    );
                    Ok("Attacked while walking".to_owned())
                } else {
                    Err("Insufficient energy to attack".to_owned())
                }
            },
            GameInput::Block => Ok("Continuing to walk".to_owned()),
        }
    }

    fn get_state_name(&self) -> (r: &'static str) {
        "Walking"
    }

    fn can_transition_to(&self, new_state: &str) -> (r: bool) {
        crate::util::str_eq(new_state, "Idle") || crate::util::str_eq(new_state, "Jumping")
            || crate::util::str_eq(new_state, "Attacking")
    }
}

impl CharacterState for JumpingCharacterState {
    open spec fn tag(&self) -> CharacterMode {
        CharacterMode::Jumping(JumpingCharacterState)
    }

    fn update(&mut self, character: &mut GameCharacter, delta_time: u32) -> (r: Result<
        String,
        String,
    >) {
        if character.is_grounded() {
            let vx = character.velocity.0;
            if vx > 100 || vx < -100 {
                character.set_state(CharacterMode::Walking(WalkingCharacterState));
                Ok("Landed and walking".to_owned())
            } else {
                character.set_state(CharacterMode::Idle(IdleCharacterState));
                Ok("Landed and idle".to_owned())
            }
        } else {
            Ok("Character is in the air".to_owned())
        }
    }

    fn handle_input(&mut self, character: &mut GameCharacter, input: GameInput) -> (r: Result<
        String,
        String,
    >) {
        match input {
            GameInput::MoveLeft => {
                character.set_facing_right(false);
                let vy = character.velocity.1;
                character.set_velocity((-3000, vy));
                Ok("Air control: moving left".to_owned())
            },
            GameInput::MoveRight => {
                character.set_facing_right(true);
                let vy = character.velocity.1;
                character.set_velocity((3000, vy));
                Ok("Air control: moving right".to_owned())
            },
            GameInput::Attack => {
                if character.consume_energy(25) {
                    character.set_state(
                        CharacterMode::Attacking(AttackingCharacterState::new()),
                    );
                    Ok("Air attack!".to_owned())
                } else {
                    Err("Insufficient energy for air attack".to_owned())
                }
            },
            GameInput::Jump => Err(
                "Cannot jump (not grounded or insufficient energy)".to_owned(),
            ),
            _ => Ok("Character continues jumping".to_owned()),
        }
    }

    fn get_state_name(&self) -> (r: &'static str) {
        "Jumping"
    }

    fn can_transition_to(&self, new_state: &str) -> (r: bool) {
        crate::util::str_eq(new_state, "Idle") || crate::util::str_eq(new_state, "Walking")
            || crate::util::str_eq(new_state, "Attacking")
    }
}

impl CharacterState for AttackingCharacterState {
    open spec fn tag(&self) -> CharacterMode {
        CharacterMode::Attacking(*self)
    }

    fn update(&mut self, character: &mut GameCharacter, delta_time: u32) -> (r: Result<
        String,
        String,
    >) {
        self.attack_timer = sat_add_u32(self.attack_timer, delta_time);
        if self.attack_timer >= 500 {
            let vx = character.velocity.0;
            if vx > 100 || vx < -100 {
                character.set_state(CharacterMode::Walking(WalkingCharacterState));
                Ok("Attack finished, now walking".to_owned())
            } else {
                character.set_state(CharacterMode::Idle(IdleCharacterState));
                Ok("Attack finished, now idle".to_owned())
            }
        } else {
            character.current_state = CharacterMode::Attacking(
                AttackingCharacterState { attack_timer: self.attack_timer },
            );
            Ok("Character is attacking".to_owned())
        }
    }

    fn handle_input(&mut self, character: &mut GameCharacter, input: GameInput) -> (r: Result<
        String,
        String,
    >) {
        match input {
            GameInput::Attack => Ok("Already attacking".to_owned()),
            _ => Err("Cannot act while attacking".to_owned()),
        }
    }

    fn get_state_name(&self) -> (r: &'static str) {
        "Attacking"
    }

    fn can_transition_to(&self, new_state: &str) -> (r: bool) {
        crate::util::str_eq(new_state, "Idle") || crate::util::str_eq(new_state, "Walking")
    }
}

/// A read-only snapshot of the character.
#[derive(Debug)]
pub struct CharacterStatus {
    pub state: String,
    pub position: (i64, i64),
    pub velocity: (i32, i32),
    pub health: u32,
    pub energy: u32,
    pub is_grounded: bool,
    pub facing_right: bool,
}

impl GameCharacter {
    /// A fresh character: idle, grounded, facing right, full health and
    /// energy, at the origin.
    pub fn new() -> (r: GameCharacter)
        ensures
            r.current_state is Idle,
            r.position == ((0i64, 0i64)),
            r.velocity == ((0i32, 0i32)),
            r.health == 100,
            r.energy == 100,
            r.is_grounded,
            r.facing_right,
            r.animation_time == 0,
    {
        GameCharacter {
            current_state: CharacterMode::Idle(IdleCharacterState),
            position: (0, 0),
            velocity: (0, 0),
            health: 100,
            energy: 100,
            is_grounded: true,
            facing_right: true,
            animation_time: 0,
        }
    }

    /// Installs a behaviour and restarts the animation clock.
    pub fn set_state(&mut self, state: CharacterMode)
        ensures
            *final(self) == (GameCharacter { current_state: state, animation_time: 0, ..*old(self) }),
    {
        self.current_state = state;
        self.animation_time = 0;
    }

    /// One physics-and-behaviour tick; see `step_update`. Always `Ok`.
    pub fn update(&mut self, delta_time: u32) -> (r: Result<String, String>)
        ensures
            *final(self) == step_update(*old(self), delta_time as int).0,
            msg_result(r) == Ok::<Seq<char>, Seq<char>>(
                step_update(*old(self), delta_time as int).1,
            ),
    {
        self.animation_time = sat_add_u32(self.animation_time, delta_time);
        proof {
            let v0 = self.velocity.0 as int;
            let v1 = self.velocity.1 as int;
            let d = delta_time as int;
            assert(i64::MIN <= v0 * d <= i64::MAX && i64::MIN <= v1 * d <= i64::MAX)
                by (nonlinear_arith)
                requires
                    -0x8000_0000 <= v0 <= 0x7fff_ffff,
                    -0x8000_0000 <= v1 <= 0x7fff_ffff,
                    0 <= d <= 0xffff_ffff,
            ;
        }
        let dx = (self.velocity.0 as i64) * (delta_time as i64);
        let dy = (self.velocity.1 as i64) * (delta_time as i64);
        let px = sat_add_i64(self.position.0, dx);
        let py = sat_add_i64(self.position.1, dy);
        self.position = (px, py);
        if !self.is_grounded {
            let fall = ((9800u64 * (delta_time as u64)) / 1000) as i64;
            let vy = clamp_i64_to_i32((self.velocity.1 as i64) - fall);
            self.velocity = (self.velocity.0, vy);
        }
        if self.position.1 <= 0 {
            self.position = (self.position.0, 0);
            self.velocity = (self.velocity.0, 0);
            self.is_grounded = true;
        }
        if self.energy < 100 {
            let e = self.energy + 1;
            self.energy = if e > 100 {
                100
            } else {
                e
            };
        }
        proof {
            assert(*self == step_phys(*old(self), delta_time as int));
        }
        match self.current_state {
            CharacterMode::Idle(s0) => {
                let mut s = s0;
                s.update(self, delta_time)
            },
            CharacterMode::Walking(s0) => {
                let mut s = s0;
                s.update(self, delta_time)
            },
            CharacterMode::Jumping(s0) => {
                let mut s = s0;
                s.update(self, delta_time)
            },
            CharacterMode::Attacking(s0) => {
                let mut s = s0;
                s.update(self, delta_time)
            },
        }
    }

    /// One input dispatch; see `step_input`.
    pub fn handle_input(&mut self, input: GameInput) -> (r: Result<String, String>)
        ensures
            *final(self) == step_input(*old(self), input).0,
            msg_result(r) == step_input(*old(self), input).1,
    {
        match self.current_state {
            CharacterMode::Idle(s0) => {
                let mut s = s0;
                s.handle_input(self, input)
            },
            CharacterMode::Walking(s0) => {
                let mut s = s0;
                s.handle_input(self, input)
            },
            CharacterMode::Jumping(s0) => {
                let mut s = s0;
                s.handle_input(self, input)
            },
            CharacterMode::Attacking(s0) => {
                let mut s = s0;
                s.handle_input(self, input)
            },
        }
    }

    pub fn get_state_name(&self) -> (r: &'static str)
        ensures
            r@ == mode_name(self.current_state),
    {
        match self.current_state {
            CharacterMode::Idle(s) => s.get_state_name(),
            CharacterMode::Walking(s) => s.get_state_name(),
            CharacterMode::Jumping(s) => s.get_state_name(),
            CharacterMode::Attacking(s) => s.get_state_name(),
        }
    }

    pub fn get_position(&self) -> (r: (i64, i64))
        ensures
            r == self.position,
    {
        self.position
    }

    pub fn set_position(&mut self, position: (i64, i64))
        ensures
            *final(self) == (GameCharacter { position, ..*old(self) }),
    {
        self.position = position;
    }

    pub fn get_velocity(&self) -> (r: (i32, i32))
        ensures
            r == self.velocity,
    {
        self.velocity
    }

    pub fn set_velocity(&mut self, velocity: (i32, i32))
        ensures
            *final(self) == (GameCharacter { velocity, ..*old(self) }),
    {
        self.velocity = velocity;
    }

    pub fn get_health(&self) -> (r: u32)
        ensures
            r == self.health,
    {
        self.health
    }

    /// Damage saturates at zero health.
    pub fn take_damage(&mut self, damage: u32)
        ensures
            final(self).health as int == sat_sub_u32_spec(old(self).health as int, damage as int),
            *final(self) == (GameCharacter { health: final(self).health, ..*old(self) }),
    {
        self.health = sat_sub_u32(self.health, damage);
    }

    pub fn get_energy(&self) -> (r: u32)
        ensures
            r == self.energy,
    {
        self.energy
    }

    /// Pays energy for an action: succeeds exactly when enough is held, and
    /// only then deducts it.
    pub fn consume_energy(&mut self, amount: u32) -> (r: bool)
        ensures
            r == (old(self).energy >= amount),
            r ==> *final(self) == (GameCharacter {
                energy: (old(self).energy - amount) as u32,
                ..*old(self)
            }),
            !r ==> *final(self) == *old(self),
    {
        if self.energy >= amount {
            self.energy = self.energy - amount;
            true
        } else {
            false
        }
    }

    pub fn is_grounded(&self) -> (r: bool)
        ensures
            r == self.is_grounded,
    {
        self.is_grounded
    }

    pub fn set_grounded(&mut self, grounded: bool)
        ensures
            *final(self) == (GameCharacter { is_grounded: grounded, ..*old(self) }),
    {
        self.is_grounded = grounded;
    }

    pub fn is_facing_right(&self) -> (r: bool)
        ensures
            r == self.facing_right,
    {
        self.facing_right
    }

    pub fn set_facing_right(&mut self, facing_right: bool)
        ensures
            *final(self) == (GameCharacter { facing_right, ..*old(self) }),
    {
        self.facing_right = facing_right;
    }

    /// A copy of the character's externally visible condition.
    pub fn get_status(&self) -> (r: CharacterStatus)
        ensures
            r.state@ == mode_name(self.current_state),
            r.position == self.position,
            r.velocity == self.velocity,
            r.health == self.health,
            r.energy == self.energy,
            r.is_grounded == self.is_grounded,
            r.facing_right == self.facing_right,
    {
        CharacterStatus {
            state: self.get_state_name().to_owned(),
            position: self.position,
            velocity: self.velocity,
            health: self.health,
            energy: self.energy,
            is_grounded: self.is_grounded,
            facing_right: self.facing_right,
        }
    }
}

impl Default for GameCharacter {
    /// The same character `new` builds.
    fn default() -> (r: GameCharacter)
        ensures
            r.current_state is Idle,
            r.health == 100,
            r.energy == 100,
            r.is_grounded,
    {
        GameCharacter::new()
    }
}

// ---------------------------------------------------------------------------
// Laws of the three machines
// ---------------------------------------------------------------------------

/// State exclusivity: each machine reports exactly one state name, and the
/// name pins the state down — two states share a name only if they are the
/// same state (for the character, the same behaviour kind).
pub proof fn lemma_state_exclusivity(a: VendState, b: VendState, m: CharacterMode, n: CharacterMode)
    ensures
        (vend_state_name(a) == vend_state_name(b)) <==> a == b,
        (mode_name(m) == mode_name(n)) <==> ((m is Idle <==> n is Idle) && (m is Walking
            <==> n is Walking) && (m is Jumping <==> n is Jumping) && (m is Attacking
            <==> n is Attacking)),
{
    reveal_strlit("Idle");
    reveal_strlit("HasMoney");
    reveal_strlit("Dispensing");
    reveal_strlit("Walking");
    reveal_strlit("Jumping");
    reveal_strlit("Attacking");
    assert("Idle"@.len() == 4 && "HasMoney"@.len() == 8 && "Dispensing"@.len() == 10);
    assert("Walking"@.len() == 7 && "Jumping"@.len() == 7 && "Attacking"@.len() == 9);
    assert("Walking"@[0] == 'W' && "Jumping"@[0] == 'J');
}

/// No-op on reject: a rejected vending event leaves the whole machine —
/// state, products and their stock, inserted money, selection, change
/// reserve — exactly as it was.
pub proof fn lemma_vending_no_op_on_reject(m: VendingModel, amount: nat, id: Seq<char>)
    ensures
        step_insert_coin(m, amount).1 is Err ==> step_insert_coin(m, amount).0 == m,
        step_select(m, id).1 is Err ==> step_select(m, id).0 == m,
        step_cancel(m).1 is Err ==> step_cancel(m).0 == m,
        step_dispense(m).1 is Err ==> step_dispense(m).0 == m,
{
}

/// No-op on reject for the character: a rejected input changes nothing at
/// all — not the behaviour, the physics, nor the resources. (The traffic
/// light rejects no event: `tick` always answers `Ok`.)
pub proof fn lemma_character_no_op_on_reject(c: GameCharacter, input: GameInput)
    ensures
        step_input(c, input).1 is Err ==> step_input(c, input).0 == c,
{
}

/// The vending round trip: from an idle well-formed machine, inserting two
/// coins that together meet a stocked product's price, selecting it and
/// dispensing sells exactly one unit: the stock falls by one, no change
/// leaves the reserve, and the machine is idle again holding nothing.
pub proof fn lemma_vending_round_trip(m: VendingModel, c1: nat, c2: nat, id: Seq<char>)
    requires
        m.wf(),
        m.state == VendState::Idle,
        c1 > 0,
        c2 > 0,
        product_index(m.products, id) >= 0,
        m.products[product_index(m.products, id)].stock > 0,
        c1 + c2 == m.products[product_index(m.products, id)].price,
    ensures
        ({
            let j = product_index(m.products, id);
            let m1 = step_insert_coin(m, c1).0;
            let m2 = step_insert_coin(m1, c2).0;
            let m3 = step_select(m2, id).0;
            let (m4, r4) = step_dispense(m3);
            m1.state == VendState::HasMoney && m1.inserted == c1 && m2.state
                == VendState::HasMoney && m2.inserted == c1 + c2 && m3.state
                == VendState::Dispensing && step_select(m2, id).1 is Ok && r4 is Ok
                && m4.state == VendState::Idle && m4.inserted == 0 && m4.selected is None
                && m4.reserve == m.reserve && m4.products == m.products.update(
                j,
                ProductModel {
                    stock: (m.products[j].stock - 1) as nat,
                    ..m.products[j]
                },
            ) && r4->Ok_0 == msg_dispensed(m.products[j].name, 0)
        }),
{
    let j = product_index(m.products, id);
    lemma_product_index(m.products, id);
    let m1 = step_insert_coin(m, c1).0;
    let m2 = step_insert_coin(m1, c2).0;
    assert(m2.products == m.products);
    let m3 = step_select(m2, id).0;
    assert(m3.state == VendState::Dispensing && m3.selected == Some(id));
    assert(m3.products == m.products);
    let (m4, r4) = step_dispense(m3);
    assert(m3.inserted == m.products[j].price);
    assert(r4 is Ok);
}

/// The traffic light cycle: from a fresh red light, thirty consecutive ticks
/// reach a fresh green; from a fresh green light with no crossing request
/// pending, forty-five consecutive ticks reach a fresh yellow.
pub proof fn lemma_traffic_light_cycle(red: TrafficLight, green: TrafficLight)
    requires
        red.current_color == TrafficColor::Red,
        red.elapsed_time == 0,
        !red.emergency_mode,
        green.current_color == TrafficColor::Green,
        green.elapsed_time == 0,
        !green.is_pedestrian_requested,
        !green.emergency_mode,
    ensures
        run_ticks(red, 30) == (TrafficLight {
            current_color: TrafficColor::Green,
            elapsed_time: 0,
            ..red
        }),
        run_ticks(green, 45) == (TrafficLight {
            current_color: TrafficColor::Yellow,
            elapsed_time: 0,
            ..green
        }),
{
    lemma_ticks_advance(red, 29);
    assert(run_ticks(red, 30) == step_tick(run_ticks(red, 29)).0);
    lemma_ticks_advance(green, 44);
    assert(run_ticks(green, 45) == step_tick(run_ticks(green, 44)).0);
}

/// The pedestrian extension: a crossing request pending when a fresh green
/// light reaches its 45-second boundary defers the change to yellow by
/// exactly one cycle — the 45th tick keeps the light green with the request
/// cleared and the clock still running, and the 46th tick then turns it
/// yellow.
pub proof fn lemma_pedestrian_extension(green: TrafficLight)
    requires
        green.current_color == TrafficColor::Green,
        green.elapsed_time == 0,
        green.is_pedestrian_requested,
        !green.emergency_mode,
    ensures
        run_ticks(green, 45) == (TrafficLight {
            current_color: TrafficColor::Green,
            elapsed_time: 45,
            is_pedestrian_requested: false,
            ..green
        }),
        run_ticks(green, 46) == (TrafficLight {
            current_color: TrafficColor::Yellow,
            elapsed_time: 0,
            is_pedestrian_requested: false,
            ..green
        }),
{
    lemma_ticks_advance(green, 44);
    assert(run_ticks(green, 45) == step_tick(run_ticks(green, 44)).0);
    assert(run_ticks(green, 46) == step_tick(run_ticks(green, 45)).0);
}

/// Emergency override: setting emergency mode forces a fresh red at once,
/// from any state and any elapsed time, and every later tick holds the light
/// red with its clock at zero.
pub proof fn lemma_emergency_override(l: TrafficLight, any: TrafficLight)
    requires
        any.emergency_mode,
    ensures
        step_set_emergency(l, true).current_color == TrafficColor::Red,
        step_set_emergency(l, true).elapsed_time == 0,
        step_tick(step_set_emergency(l, true)).0.current_color == TrafficColor::Red,
        step_tick(step_set_emergency(l, true)).0.elapsed_time == 0,
        step_tick(any).0.current_color == TrafficColor::Red,
        step_tick(any).0.elapsed_time == 0,
{
}

/// Energy gating: a grounded character short of 20 energy cannot start a
/// jump — the input is rejected and nothing changes; once regeneration (one
/// point per update) has brought the energy to 20 or more, the same input
/// succeeds, moves the character to `Jumping`, and consumes the 20 points
/// with the transition.
pub proof fn lemma_energy_gating(low: GameCharacter, high: GameCharacter)
    requires
        low.is_grounded,
        low.energy < 20,
        low.current_state is Idle || low.current_state is Walking,
        high.is_grounded,
        high.energy >= 20,
        high.current_state is Idle || high.current_state is Walking,
    ensures
        step_input(low, GameInput::Jump).1 is Err,
        step_input(low, GameInput::Jump).0 == low,
        step_input(high, GameInput::Jump).1 is Ok,
        step_input(high, GameInput::Jump).0.current_state is Jumping,
        step_input(high, GameInput::Jump).0.energy == high.energy - 20,
        step_phys(low, 1).energy == low.energy + 1,
{
}

} // verus!
