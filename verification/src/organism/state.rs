use vstd::prelude::*;
use crate::organism::ecosystem::{Food, FoodView};

verus! {

/// The stock of food a fresh organism starts with.
pub const OUTGOING_START_AMOUNT: usize = 1000;

/// What a stock-keeping organism keeps track of: the food it still has to
/// give and of which kind, and the food it has eaten and of which kind.
#[derive(Debug)]
pub struct State {
    outgoing_amount: usize,
    outgoing: String,
    incoming_amount: usize,
    incoming: String,
}

/// The mathematical value of a `State`.
pub struct StateView {
    pub outgoing_amount: nat,
    pub outgoing: Seq<char>,
    pub incoming_amount: nat,
    pub incoming: Seq<char>,
}

impl StateView {
    /// The state of a fresh organism: a full stock, nothing eaten.
    pub open spec fn initial(outgoing: Seq<char>, incoming: Seq<char>) -> StateView {
        StateView {
            outgoing_amount: OUTGOING_START_AMOUNT as nat,
            outgoing,
            incoming_amount: 0,
            incoming,
        }
    }

    /// What producing gives: one unit of the outgoing kind while the stock
    /// lasts, nothing once it is empty.
    pub open spec fn produced(self) -> Option<FoodView> {
        if self.outgoing_amount > 0 {
            Some(FoodView { kind: self.outgoing, amount: 1 })
        } else {
            None
        }
    }

    /// The state after producing: one unit less in stock while the stock
    /// lasts, unchanged once it is empty.
    pub open spec fn after_production(self) -> StateView {
        if self.outgoing_amount > 0 {
            StateView {
                outgoing_amount: (self.outgoing_amount - 1) as nat,
                outgoing: self.outgoing,
                incoming_amount: self.incoming_amount,
                incoming: self.incoming,
            }
        } else {
            self
        }
    }

    /// Whether this organism eats `food`: exactly when it is of its incoming kind.
    pub open spec fn accepts(self, food: FoodView) -> bool {
        food.kind == self.incoming
    }

    /// The amount eating `food` adds to what was eaten: the food's amount
    /// read as an unsigned machine word, as an `as usize` cast does.
    pub open spec fn eaten_amount(food: FoodView) -> nat {
        (food.amount as usize) as nat
    }

    /// The state after being offered `food`: what was eaten grows by the
    /// food's amount if it is accepted; nothing else changes.
    pub open spec fn after_consumption(self, food: FoodView) -> StateView {
        if self.accepts(food) {
            StateView {
                outgoing_amount: self.outgoing_amount,
                outgoing: self.outgoing,
                incoming_amount: self.incoming_amount + StateView::eaten_amount(food),
                incoming: self.incoming,
            }
        } else {
            self
        }
    }

    /// The state after producing `n` times in a row.
    pub open spec fn after_productions(self, n: nat) -> StateView
        decreases n,
    {
        if n == 0 {
            self
        } else {
            self.after_productions((n - 1) as nat).after_production()
        }
    }

    /// Eating `food` keeps the count of what was eaten within a machine word.
    pub open spec fn can_consume(self, food: FoodView) -> bool {
        self.accepts(food) ==> self.incoming_amount + StateView::eaten_amount(food) <= usize::MAX
    }
}

/// Producing `n` times takes `n` units from the stock, down to an empty
/// stock and never below; nothing but the stock changes.
pub proof fn lemma_stock_after_productions(s: StateView, n: nat)
    ensures
        s.after_productions(n) == (StateView {
            outgoing_amount: if n <= s.outgoing_amount {
                (s.outgoing_amount - n) as nat
            } else {
                0
            },
            ..s
        }),
    decreases n,
{
    if n > 0 {
        lemma_stock_after_productions(s, (n - 1) as nat);
    }
}

/// A fresh organism hands out exactly its starting stock: each of the first
/// `OUTGOING_START_AMOUNT` requests to produce gets a unit of food, and every
/// later request gets nothing.
pub proof fn lemma_fresh_stock_lasts(outgoing: Seq<char>, incoming: Seq<char>, n: nat)
    ensures
        StateView::initial(outgoing, incoming).after_productions(n).produced() is Some <==> n
            < OUTGOING_START_AMOUNT,
{
    lemma_stock_after_productions(StateView::initial(outgoing, incoming), n);
}

/// Once the stock is empty, producing hands out nothing and changes nothing.
pub proof fn lemma_empty_stock_is_stable(s: StateView)
    requires
        s.outgoing_amount == 0,
    ensures
        s.produced() is None,
        s.after_production() == s,
{
}

/// Producing and eating do not interfere: in either order they give the
/// same state, and producing never changes which food is accepted.
pub proof fn lemma_production_and_consumption_commute(s: StateView, food: FoodView)
    ensures
        s.after_production().after_consumption(food) == s.after_consumption(food).after_production(),
        s.after_production().accepts(food) == s.accepts(food),
        s.after_consumption(food).produced() == s.produced(),
{
}

/// Whether a portion is eaten depends on its kind alone, and eating an
/// accepted portion of non-negative amount adds exactly that amount to what
/// was eaten and changes nothing else; a refused portion changes nothing.
pub proof fn lemma_eating_adds_the_amount(s: StateView, f: FoodView, g: FoodView)
    ensures
        s.accepts(f) <==> f.kind == s.incoming,
        f.kind == g.kind ==> s.accepts(f) == s.accepts(g),
        f.kind == s.incoming && f.amount >= 0 ==> s.after_consumption(f) == (StateView {
            incoming_amount: s.incoming_amount + f.amount as nat,
            ..s
        }),
        f.kind != s.incoming ==> s.after_consumption(f) == s,
{
}

/// Food flows between two organisms exactly when the producer's outgoing
/// kind is the consumer's incoming kind, and then the consumer has eaten
/// one unit more.
pub proof fn lemma_food_flows_on_matching_kinds(producer: StateView, consumer: StateView)
    requires
        producer.outgoing_amount > 0,
    ensures
        consumer.accepts(producer.produced().unwrap()) <==> producer.outgoing == consumer.incoming,
        producer.outgoing == consumer.incoming ==> consumer.after_consumption(
            producer.produced().unwrap(),
        ).incoming_amount == consumer.incoming_amount + 1,
{
}

/// A call made on an organism's state: producing, or being offered a
/// portion of food.
pub enum Call {
    Produce,
    Consume(FoodView),
}

impl StateView {
    /// The state after one call.
    pub open spec fn after_call(self, call: Call) -> StateView {
        match call {
            Call::Produce => self.after_production(),
            Call::Consume(food) => self.after_consumption(food),
        }
    }

    /// The state after a sequence of calls, made in order.
    pub open spec fn after_calls(self, calls: Seq<Call>) -> StateView
        decreases calls.len(),
    {
        if calls.len() == 0 {
            self
        } else {
            self.after_calls(calls.drop_last()).after_call(calls.last())
        }
    }

    /// How many of `calls`, made in order from this state, handed out food.
    pub open spec fn handed_out(self, calls: Seq<Call>) -> nat
        decreases calls.len(),
    {
        if calls.len() == 0 {
            0
        } else {
            self.handed_out(calls.drop_last()) + if calls.last() is Produce && self.after_calls(
                calls.drop_last(),
            ).produced() is Some {
                1nat
            } else {
                0nat
            }
        }
    }
}

/// How many of `calls` are requests to produce.
pub open spec fn productions(calls: Seq<Call>) -> nat
    decreases calls.len(),
{
    if calls.len() == 0 {
        0
    } else {
        productions(calls.drop_last()) + if calls.last() is Produce {
            1nat
        } else {
            0nat
        }
    }
}

/// Over any sequence of calls, the stock only ever shrinks by what was
/// handed out: food is handed out exactly at the first requests to produce,
/// as many as there was stock, always one unit of the outgoing kind, and
/// eating never refills the stock.
pub proof fn lemma_stock_over_calls(s: StateView, calls: Seq<Call>)
    ensures
        s.after_calls(calls).outgoing_amount + s.handed_out(calls) == s.outgoing_amount,
        s.handed_out(calls) == if productions(calls) <= s.outgoing_amount {
            productions(calls)
        } else {
            s.outgoing_amount
        },
        s.after_calls(calls).outgoing == s.outgoing,
        s.after_calls(calls).produced() is Some <==> productions(calls) < s.outgoing_amount,
        s.after_calls(calls).produced() is Some ==> s.after_calls(calls).produced() == Some(
            FoodView { kind: s.outgoing, amount: 1 },
        ),
    decreases calls.len(),
{
    if calls.len() > 0 {
        lemma_stock_over_calls(s, calls.drop_last());
    }
}

/// The request to produce at position `k` of a sequence of calls hands out
/// food exactly when fewer than the starting stock of requests to produce
/// came before it, and then it hands out one unit of the outgoing kind.
pub proof fn lemma_call_hands_out(s: StateView, calls: Seq<Call>, k: int)
    requires
        0 <= k < calls.len(),
        calls[k] is Produce,
    ensures
        s.after_calls(calls.take(k)).produced() is Some <==> productions(calls.take(k))
            < s.outgoing_amount,
        s.after_calls(calls.take(k)).produced() is Some ==> s.after_calls(calls.take(k)).produced()
            == Some(FoodView { kind: s.outgoing, amount: 1 }),
{
    lemma_stock_over_calls(s, calls.take(k));
}

/// From a fresh organism, whatever calls are made, exactly the first
/// `OUTGOING_START_AMOUNT` requests to produce hand out food: what is handed
/// out is the smaller of the requests and the starting stock, and with what
/// is left it makes up the starting stock.
pub proof fn lemma_fresh_stock_over_calls(outgoing: Seq<char>, incoming: Seq<char>, calls: Seq<Call>)
    ensures
        StateView::initial(outgoing, incoming).handed_out(calls) == if productions(calls)
            <= OUTGOING_START_AMOUNT {
            productions(calls)
        } else {
            OUTGOING_START_AMOUNT as nat
        },
        StateView::initial(outgoing, incoming).after_calls(calls).outgoing_amount + StateView::initial(
            outgoing,
            incoming,
        ).handed_out(calls) == OUTGOING_START_AMOUNT,
{
    lemma_stock_over_calls(StateView::initial(outgoing, incoming), calls);
}

/// Once a request to produce has handed out nothing, no later call, eating
/// included, ever makes one hand out food again.
pub proof fn lemma_empty_stock_stays_empty(s: StateView, calls: Seq<Call>)
    requires
        s.produced() is None,
    ensures
        s.after_calls(calls).outgoing_amount == 0,
        s.after_calls(calls).produced() is None,
        s.handed_out(calls) == 0,
{
    lemma_stock_over_calls(s, calls);
}

impl View for State {
    type V = StateView;

    closed spec fn view(&self) -> StateView {
        StateView {
            outgoing_amount: self.outgoing_amount as nat,
            outgoing: self.outgoing@,
            incoming_amount: self.incoming_amount as nat,
            incoming: self.incoming@,
        }
    }
}

impl State {
    /// The stock never grows past what a fresh organism starts with.
    #[verifier::type_invariant]
    spec fn stock_within_start(self) -> bool {
        self.outgoing_amount <= OUTGOING_START_AMOUNT
    }

    /// A fresh organism that produces `outgoing` food from a full stock and
    /// eats `incoming` food, having eaten nothing yet.
    pub fn new(outgoing: &str, incoming: &str) -> (s: State)
        ensures
            s@ == StateView::initial(outgoing@, incoming@),
            s@.outgoing_amount == 1000 && s@.incoming_amount == 0,
    {
        State {
            outgoing_amount: OUTGOING_START_AMOUNT,
            outgoing: outgoing.to_owned(),
            incoming_amount: 0,
            incoming: incoming.to_owned(),
        }
    }

    /// The food still in stock.
    pub fn outgoing_amount(&self) -> (n: usize)
        ensures
            n as nat == self@.outgoing_amount,
    {
        self.outgoing_amount
    }

    /// The food eaten so far.
    pub fn incoming_amount(&self) -> (n: usize)
        ensures
            n as nat == self@.incoming_amount,
    {
        self.incoming_amount
    }

    /// Hands out one unit of food from the stock, or nothing once the stock
    /// is empty.
    pub fn produce_food(&mut self) -> (food: Option<Food>)
        ensures
            final(self)@ == old(self)@.after_production(),
            match food {
                Some(f) => old(self)@.produced() == Some(f@),
                None => old(self)@.produced() is None,
            },
            final(self)@.outgoing_amount <= OUTGOING_START_AMOUNT,
            food is Some <==> old(self)@.outgoing_amount > 0,
            food matches Some(f) ==> f.kind@ == old(self)@.outgoing && f.amount == 1
                && final(self)@.outgoing_amount + 1 == old(self)@.outgoing_amount,
            food is None ==> final(self)@ == old(self)@,
            final(self)@.incoming_amount == old(self)@.incoming_amount,
    {
        proof {
            use_type_invariant(&*self);
        }
        if self.outgoing_amount > 0 {
            let amount: usize = 1;
            self.outgoing_amount = self.outgoing_amount - amount;
            Some(Food { kind: self.outgoing.clone(), amount: amount as i32 })
        } else {
            None
        }
    }

    /// Eats `food` if it is of the incoming kind, counting its amount, and
    /// says whether it did.
    pub fn consume_food(&mut self, food: &Food) -> (accepted: bool)
        requires
            old(self)@.can_consume(food@),
        ensures
            final(self)@ == old(self)@.after_consumption(food@),
            accepted == old(self)@.accepts(food@),
            accepted == (food.kind@ == old(self)@.incoming),
            accepted && food.amount >= 0 ==> final(self)@.incoming_amount == old(self)@.incoming_amount
                + food.amount,
            final(self)@.outgoing_amount <= OUTGOING_START_AMOUNT,
    {
        proof {
            use_type_invariant(&*self);
        }
        if food.kind == self.incoming {
            self.incoming_amount = self.incoming_amount + food.amount as usize;
            return true;
        }
        false
    }
}

} // verus!
