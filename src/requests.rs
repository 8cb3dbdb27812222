use vstd::prelude::*;
use std::collections::HashSet;
use vstd::arithmetic::power2::pow2;

verus! {

broadcast use vstd::std_specs::hash::group_hash_axioms;

/// The lower-case hexadecimal digit of `n`, for `0 <= n < 16`.
pub open spec fn hex_digit(n: int) -> char {
    seq!['0', '1', '2', '3', '4', '5', '6', '7', '8', '9', 'a', 'b', 'c', 'd', 'e', 'f'][n]
}

/// The `j`-th of the 32 four-bit digits of `id`, the most significant first.
pub open spec fn nibble(id: u128, j: int) -> int {
    (id as int / pow2((4 * (31 - j)) as nat) as int) % 16
}

/// The text form of a request identifier: its 32 hexadecimal digits, most
/// significant first, in groups of 8, 4, 4, 4 and 12 joined by hyphens.
pub open spec fn uuid_text(id: u128) -> Seq<char> {
    Seq::new(
        36,
        |i: int|
            if i == 8 || i == 13 || i == 18 || i == 23 {
                '-'
            } else {
                let hyphens: int = if i < 8 {
                    0
                } else if i < 13 {
                    1
                } else if i < 18 {
                    2
                } else if i < 23 {
                    3
                } else {
                    4
                };
                hex_digit(nibble(id, i - hyphens))
            },
    )
}

/// Relies on `uuid::Uuid::new_v4`, read back by `Uuid::as_u128`: a random
/// identifier. Nothing is promised of its value.
#[verifier::external_body]
fn draw_request_id() -> (r: u128) {
    uuid::Uuid::new_v4().as_u128()
}

/// Relies on `uuid::Uuid::from_u128` (the value's big-endian bytes) and uuid's
/// `Display`: the lower-case hyphenated form, `Hyphenated::LENGTH` (36)
/// characters.
#[verifier::external_body]
fn request_id_text(id: u128) -> (r: String)
    ensures
        r@ == uuid_text(id),
        r@.len() == 36,
{
    uuid::Uuid::from_u128(id).to_string()
}

/// The one terminal notification of a request.
#[derive(Debug)]
pub enum Terminal {
    Done { request: u128 },
    Failed { request: u128, message: String },
}

/// The requests whose detached work has not yet reported its end. Each request
/// ends with exactly one terminal notification: never none, never two.
pub struct RequestLedger {
    pending: HashSet<u128>,
}

impl View for RequestLedger {
    type V = Set<u128>;

    closed spec fn view(&self) -> Set<u128> {
        self.pending@
    }
}

impl RequestLedger {
    pub fn new() -> (r: RequestLedger)
        ensures
            r@ == Set::<u128>::empty(),
    {
        RequestLedger { pending: HashSet::new() }
    }

    pub fn is_pending(&self, id: u128) -> (r: bool)
        ensures
            r == self@.contains(id),
    {
        self.pending.contains(&id)
    }

    /// Opens a request under `id`. Refused, with nothing changed, when a request
    /// of that id is still pending.
    pub fn register(&mut self, id: u128) -> (r: bool)
        ensures
            r == !old(self)@.contains(id),
            final(self)@ == old(self)@.insert(id),
    {
        self.pending.insert(id)
    }

    /// Closes the request `id` with the outcome of its work, and gives the
    /// terminal notification to send. `None`, with nothing changed, when no such
    /// request is pending: a request that has ended gets no second one.
    pub fn finish(&mut self, id: u128, outcome: Result<(), String>) -> (r: Option<Terminal>)
        ensures
            final(self)@ == old(self)@.remove(id),
            !old(self)@.contains(id) ==> r is None,
            old(self)@.contains(id) ==> r == Some(
                match outcome {
                    Ok(()) => Terminal::Done { request: id },
                    Err(message) => Terminal::Failed { request: id, message },
                },
            ),
    {
        if !self.pending.remove(&id) {
            return None;
        }
        match outcome {
            Ok(()) => Some(Terminal::Done { request: id }),
            Err(message) => Some(Terminal::Failed { request: id, message }),
        }
    }
}

/// Opens a request under `id` and returns it with its text form. `None`, with
/// nothing changed, exactly when a request of that id is still pending.
pub fn open_request_with(ledger: &mut RequestLedger, id: u128) -> (r: Option<(u128, String)>)
    ensures
        r is None <==> old(ledger)@.contains(id),
        r matches Some((i, text)) ==> {
            &&& i == id
            &&& text@ == uuid_text(id)
            &&& final(ledger)@ == old(ledger)@.insert(id)
        },
        r is None ==> final(ledger)@ == old(ledger)@,
{
    if ledger.is_pending(id) {
        return None;
    }
    ledger.register(id);
    Some((id, request_id_text(id)))
}

/// Opens a request under a freshly drawn identifier and returns it with its
/// text form, to be handed back at once while the work goes on detached.
/// `None`, with nothing changed, only in the unlikely case that the identifier
/// drawn is still pending, so never while no request is pending.
pub fn open_request(ledger: &mut RequestLedger) -> (r: Option<(u128, String)>)
    ensures
        r matches Some((id, text)) ==> {
            &&& !old(ledger)@.contains(id)
            &&& final(ledger)@ == old(ledger)@.insert(id)
            &&& text@ == uuid_text(id)
        },
        r is None ==> final(ledger)@ == old(ledger)@,
        r is None ==> old(ledger)@ != Set::<u128>::empty(),
{
    open_request_with(ledger, draw_request_id())
}

} // verus!
