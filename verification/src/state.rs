use vstd::prelude::*;
use crate::ecosystem::{Food, FoodView};

verus! {

/// What an organism keeps track of: its name, how many portions of food it has
/// produced so far, the kind of food it produces and the kind it eats.
#[derive(Debug)]
pub struct State {
    source: String,
    food_id: usize,
    outgoing: String,
    incoming: String,
}

/// The mathematical value of a `State`.
pub struct StateView {
    pub source: Seq<char>,
    pub food_id: nat,
    pub outgoing: Seq<char>,
    pub incoming: Seq<char>,
}

impl StateView {
    /// The state of a fresh organism.
    pub open spec fn initial(source: Seq<char>, outgoing: Seq<char>, incoming: Seq<char>) -> StateView {
        StateView { source, food_id: 0, outgoing, incoming }
    }

    /// The state after one more portion has been produced.
    pub open spec fn after_production(self) -> StateView {
        StateView {
            source: self.source,
            food_id: self.food_id + 1,
            outgoing: self.outgoing,
            incoming: self.incoming,
        }
    }

    /// The portion produced next: numbered one past the last, from this
    /// organism, of its outgoing kind, one unit. The number is the count of
    /// portions produced, cut to 32 bits as an `as i32` cast does.
    pub open spec fn next_food(self) -> FoodView {
        FoodView {
            id: (self.food_id + 1) as i32,
            source: self.source,
            kind: self.outgoing,
            amount: 1,
        }
    }

    /// Whether this organism eats `food`: exactly when it is of its incoming kind.
    pub open spec fn accepts(self, food: FoodView) -> bool {
        food.kind == self.incoming
    }

    /// The state after `n` more portions have been produced.
    pub open spec fn after_productions(self, n: nat) -> StateView
        decreases n,
    {
        if n == 0 {
            self
        } else {
            self.after_productions((n - 1) as nat).after_production()
        }
    }
}

/// Producing `n` portions advances the count by `n` and changes nothing
/// else; the portion produced after those carries the count `n + 1` past the
/// starting one, cut to 32 bits.
pub proof fn lemma_productions_count(s: StateView, n: nat)
    ensures
        s.after_productions(n) == (StateView { food_id: s.food_id + n, ..s }),
        s.after_productions(n).next_food().id == #[verifier::truncate] ((s.food_id + n + 1) as i32),
    decreases n,
{
    if n > 0 {
        lemma_productions_count(s, (n - 1) as nat);
    }
}

/// A fresh organism numbers its portions 1, 2, 3, ...: no two of the first
/// `i32::MAX` portions it produces share an id.
pub proof fn lemma_fresh_ids_distinct(source: Seq<char>, outgoing: Seq<char>, incoming: Seq<char>, j: nat, k: nat)
    requires
        j < k < i32::MAX,
    ensures
        StateView::initial(source, outgoing, incoming).after_productions(j).next_food().id == j + 1,
        StateView::initial(source, outgoing, incoming).after_productions(k).next_food().id == k + 1,
        StateView::initial(source, outgoing, incoming).after_productions(j).next_food().id
            != StateView::initial(source, outgoing, incoming).after_productions(k).next_food().id,
{
    let s = StateView::initial(source, outgoing, incoming);
    lemma_productions_count(s, j);
    lemma_productions_count(s, k);
}

/// Whether a portion is eaten depends on its kind alone: it is eaten exactly
/// when its kind is the organism's incoming kind, whatever its id, maker or
/// amount.
pub proof fn lemma_acceptance_by_kind_alone(s: StateView, f: FoodView, g: FoodView)
    ensures
        s.accepts(f) <==> f.kind == s.incoming,
        f.kind == g.kind ==> s.accepts(f) == s.accepts(g),
{
}

/// Food flows between two organisms exactly when the producer's outgoing
/// kind is the consumer's incoming kind.
pub proof fn lemma_food_flows_on_matching_kinds(producer: StateView, consumer: StateView)
    ensures
        consumer.accepts(producer.next_food()) <==> producer.outgoing == consumer.incoming,
{
}

/// A call made on an organism's state: producing, or being offered a
/// portion of food.
pub enum Call {
    Produce,
    Consume(FoodView),
}

impl StateView {
    /// The state after one call; being offered food changes nothing.
    pub open spec fn after_call(self, call: Call) -> StateView {
        match call {
            Call::Produce => self.after_production(),
            Call::Consume(_) => self,
        }
    }

    /// The state after a sequence of calls, made in order.
    pub open spec fn after_calls(self, calls: Seq<Call>) -> StateView
        decreases calls.len(),
    {
        if calls.len() == 0 {
            self
        } else {
            self.after_calls(calls.drop_last()).after_call(calls.last())
        }
    }
}

/// How many of `calls` are requests to produce.
pub open spec fn productions(calls: Seq<Call>) -> nat
    decreases calls.len(),
{
    if calls.len() == 0 {
        0
    } else {
        productions(calls.drop_last()) + if calls.last() is Produce {
            1nat
        } else {
            0nat
        }
    }
}

/// Over any sequence of calls, the count of portions goes up by the number
/// of requests to produce, and nothing else changes.
pub proof fn lemma_state_over_calls(s: StateView, calls: Seq<Call>)
    ensures
        s.after_calls(calls) == (StateView { food_id: s.food_id + productions(calls), ..s }),
    decreases calls.len(),
{
    if calls.len() > 0 {
        lemma_state_over_calls(s, calls.drop_last());
    }
}

/// Requests to produce are counted in order: the calls before position `k`
/// hold at least one more than the calls before an earlier request to
/// produce at position `j`, and exactly one more when no request to produce
/// lies between them.
pub proof fn lemma_productions_grow(calls: Seq<Call>, j: int, k: int)
    requires
        0 <= j < k <= calls.len(),
        calls[j] is Produce,
    ensures
        productions(calls.take(k)) >= productions(calls.take(j)) + 1,
        (forall|i: int| j < i < k ==> !(#[trigger] calls[i] is Produce)) ==> productions(
            calls.take(k),
        ) == productions(calls.take(j)) + 1,
    decreases k - j,
{
    assert(calls.take(k).drop_last() =~= calls.take(k - 1));
    assert(calls.take(k).last() == calls[k - 1]);
    if k > j + 1 {
        lemma_productions_grow(calls, j, k - 1);
    }
}

/// The request to produce at position `k` of any sequence of calls hands out
/// one unit of the outgoing kind from this organism, numbered one past the
/// count of portions produced before it (cut to 32 bits).
pub proof fn lemma_call_produces(s: StateView, calls: Seq<Call>, k: int)
    requires
        0 <= k < calls.len(),
    ensures
        s.after_calls(calls.take(k)).next_food() == (FoodView {
            id: #[verifier::truncate] ((s.food_id + productions(calls.take(k)) + 1) as i32),
            source: s.source,
            kind: s.outgoing,
            amount: 1,
        }),
{
    lemma_state_over_calls(s, calls.take(k));
}

/// A fresh organism numbers its portions 1, 2, 3, ... whatever else happens
/// in between: the `n`-th request to produce hands out portion `n`.
pub proof fn lemma_fresh_numbering_over_calls(
    source: Seq<char>,
    outgoing: Seq<char>,
    incoming: Seq<char>,
    calls: Seq<Call>,
    k: int,
)
    requires
        0 <= k < calls.len(),
        productions(calls.take(k)) + 1 <= i32::MAX,
    ensures
        StateView::initial(source, outgoing, incoming).after_calls(calls.take(k)).next_food() == (
        FoodView {
            id: (productions(calls.take(k)) + 1) as i32,
            source,
            kind: outgoing,
            amount: 1,
        }),
        StateView::initial(source, outgoing, incoming).after_calls(calls.take(k)).next_food().id
            == productions(calls.take(k)) + 1,
{
    lemma_call_produces(StateView::initial(source, outgoing, incoming), calls, k);
}

/// On any state and over any sequence of calls, a later request to produce
/// hands out a portion with a larger id than an earlier one, as long as the
/// ids stay within `i32`; with no request to produce between them, the later
/// id is the earlier one plus one. So no two portions of one organism share
/// an id.
pub proof fn lemma_ids_increase_over_calls(s: StateView, calls: Seq<Call>, j: int, k: int)
    requires
        0 <= j < k < calls.len(),
        calls[j] is Produce,
        s.food_id + productions(calls.take(k)) + 1 <= i32::MAX,
    ensures
        s.after_calls(calls.take(j)).next_food().id < s.after_calls(calls.take(k)).next_food().id,
        (forall|i: int| j < i < k ==> !(#[trigger] calls[i] is Produce)) ==> s.after_calls(
            calls.take(k),
        ).next_food().id == s.after_calls(calls.take(j)).next_food().id + 1,
{
    lemma_productions_grow(calls, j, k);
    lemma_call_produces(s, calls, j);
    lemma_call_produces(s, calls, k);
}

impl View for State {
    type V = StateView;

    closed spec fn view(&self) -> StateView {
        StateView {
            source: self.source@,
            food_id: self.food_id as nat,
            outgoing: self.outgoing@,
            incoming: self.incoming@,
        }
    }
}

impl State {
    /// A fresh organism named `source` that produces `outgoing` food and eats
    /// `incoming` food, having produced nothing yet.
    pub fn new(source: &str, outgoing: &str, incoming: &str) -> (s: State)
        ensures
            s@ == StateView::initial(source@, outgoing@, incoming@),
            s@.food_id == 0 && s@.source == source@ && s@.outgoing == outgoing@ && s@.incoming
                == incoming@,
    {
        State {
            source: source.to_owned(),
            food_id: 0,
            outgoing: outgoing.to_owned(),
            incoming: incoming.to_owned(),
        }
    }

    /// Produces the next portion of food: the count of portions goes up by
    /// one, and the portion carries that count as its id.
    pub fn produce_food(&mut self) -> (food: Food)
        requires
            old(self)@.food_id < usize::MAX,
        ensures
            final(self)@ == old(self)@.after_production(),
            food@ == old(self)@.next_food(),
            final(self)@.food_id == old(self)@.food_id + 1,
            food.id == #[verifier::truncate] ((old(self)@.food_id + 1) as i32),
            food.source@ == old(self)@.source && food.kind@ == old(self)@.outgoing && food.amount == 1,
    {
        self.food_id += 1;
        Food {
            id: self.food_id as i32,
            source: self.source.clone(),
            kind: self.outgoing.clone(),
            amount: 1,
        }
    }

    /// How many portions this organism has produced.
    pub fn food_id(&self) -> (n: usize)
        ensures
            n as nat == self@.food_id,
    {
        self.food_id
    }

    /// Whether this organism eats `food`; nothing about the organism changes.
    pub fn consume_food(&mut self, food: &Food) -> (accepted: bool)
        ensures
            final(self)@ == old(self)@,
            accepted == old(self)@.accepts(food@),
            accepted == (food.kind@ == old(self)@.incoming),
    {
        food.kind == self.incoming
    }
}

} // verus!
