//! Which strategies are being executed: no strategy is executed twice at a
//! time.
//!
//! The engine itself does not keep two executions of one strategy apart. A
//! caller that may be asked for the same strategy from two sides (the
//! monitor and a user, say) enters the strategy here before it begins and
//! leaves when the execution has ended, whatever its end was.

use crate::text::same_text;
use vstd::prelude::*;
use vstd::string::StringExecFns;

verus! {

/// The identifiers of the strategies that are being executed.
#[derive(Debug)]
pub struct RunningStrategies {
    ids: Vec<String>,
}

impl View for RunningStrategies {
    type V = Seq<Seq<char>>;

    closed spec fn view(&self) -> Seq<Seq<char>> {
        self.ids.deep_view()
    }
}

/// The position of an identifier among `ids`, if it is there.
fn position_of(ids: &Vec<String>, id: &str) -> (at: Option<usize>)
    ensures
        at is Some <==> ids.deep_view().contains(id@),
        at matches Some(i) ==> i < ids.len() && ids.deep_view()[i as int] == id@,
{
    let mut i: usize = 0;
    while i < ids.len()
        invariant
            i <= ids.len(),
            forall|j: int| 0 <= j < i ==> ids.deep_view()[j] != id@,
        decreases ids.len() - i,
    {
        if same_text(ids[i].as_str(), id) {
            assert(ids.deep_view()[i as int] == id@);
            return Some(i);
        }
        i += 1;
    }
    None
}

impl RunningStrategies {
    #[verifier::type_invariant]
    spec fn distinct(self) -> bool {
        self.ids.deep_view().no_duplicates()
    }

    /// No strategy is being executed.
    pub fn new() -> (running: RunningStrategies)
        ensures
            running@.len() == 0,
    {
        let running = RunningStrategies { ids: Vec::new() };
        assert(running.ids.deep_view() =~= Seq::empty());
        running
    }

    /// Whether the strategy is being executed.
    pub fn is_running(&self, strategy_id: &str) -> (running: bool)
        ensures
            running == self@.contains(strategy_id@),
    {
        position_of(&self.ids, strategy_id).is_some()
    }

    /// How many strategies are being executed.
    pub fn len(&self) -> (count: usize)
        ensures
            count == self@.len(),
    {
        self.ids.len()
    }

    /// Enters a strategy, unless it is being executed already. The first
    /// part of the result says whether the execution may begin.
    pub fn try_begin(self, strategy_id: &str) -> (entered: (bool, RunningStrategies))
        ensures
            entered.0 == !self@.contains(strategy_id@),
            entered.0 ==> entered.1@ == self@.push(strategy_id@),
            !entered.0 ==> entered.1@ == self@,
            entered.1@.no_duplicates(),
    {
        proof {
            use_type_invariant(&self);
        }
        if position_of(&self.ids, strategy_id).is_some() {
            (false, self)
        } else {
            let ghost before = self@;
            let mut ids = self.ids;
            ids.push(String::from_str(strategy_id));
            assert(ids.deep_view() =~= before.push(strategy_id@));
            (true, RunningStrategies { ids })
        }
    }

    /// Takes a strategy out when its execution has ended. Every other
    /// strategy stays.
    pub fn finish(self, strategy_id: &str) -> (left: RunningStrategies)
        ensures
            !left@.contains(strategy_id@),
            forall|other: Seq<char>|
                other != strategy_id@ ==> (left@.contains(other) <==> self@.contains(other)),
            left@.len() == if self@.contains(strategy_id@) {
                self@.len() - 1
            } else {
                self@.len() as int
            },
            left@.no_duplicates(),
    {
        proof {
            use_type_invariant(&self);
        }
        match position_of(&self.ids, strategy_id) {
            None => self,
            Some(at) => {
                let ghost before = self@;
                let mut ids = self.ids;
                ids.remove(at);
                assert(ids.deep_view() =~= before.remove(at as int));
                let ghost after = before.remove(at as int);
                assert forall|other: Seq<char>| other != strategy_id@ implies (after.contains(other)
                    <==> before.contains(other)) by {
                    if after.contains(other) {
                        let i = choose|i: int| 0 <= i < after.len() && after[i] == other;
                        if i < at {
                            assert(before[i] == other);
                        } else {
                            assert(before[i + 1] == other);
                        }
                    }
                    if before.contains(other) {
                        let i = choose|i: int| 0 <= i < before.len() && before[i] == other;
                        if i < at {
                            assert(after[i] == other);
                        } else {
                            assert(after[i - 1] == other);
                        }
                    }
                }
                assert(!after.contains(strategy_id@)) by {
                    if after.contains(strategy_id@) {
                        let i = choose|i: int| 0 <= i < after.len() && after[i] == strategy_id@;
                        if i < at {
                            assert(before[i] == before[at as int]);
                        } else {
                            assert(before[i + 1] == before[at as int]);
                        }
                    }
                }
                RunningStrategies { ids }
            },
        }
    }
}

} // verus!
