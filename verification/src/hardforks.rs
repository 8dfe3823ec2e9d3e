//! Hardforks, their activation conditions, and the schedule that a chain specification holds.

use alloy_primitives::U256;
use vstd::prelude::*;

verus! {

/// The name of an Ethereum hardfork.
#[derive(Debug, Clone, Copy, PartialEq, Eq, Structural)]
pub enum EthereumHardfork {
    Frontier,
    Homestead,
    Dao,
    Tangerine,
    SpuriousDragon,
    Byzantium,
    Constantinople,
    Petersburg,
    Istanbul,
    MuirGlacier,
    Berlin,
    London,
    ArrowGlacier,
    GrayGlacier,
    Paris,
    Shanghai,
    Cancun,
    Prague,
    Osaka,
    Bpo1,
    Bpo2,
    Bpo3,
    Bpo4,
    Bpo5,
    Amsterdam,
    Bogota,
}

/// The condition at which a fork is activated.
#[derive(Debug, Clone, Copy, PartialEq, Eq)]
pub enum ForkCondition {
    /// The fork is activated after a certain block.
    Block(u64),
    /// The fork is activated after a total difficulty has been reached.
    TTD { activation_block_number: u64, fork_block: Option<u64>, total_difficulty: U256 },
    /// The fork is activated after a specific timestamp.
    Timestamp(u64),
    /// The fork is never activated.
    Never,
}

/// Whether `forks` gives `fork` a condition.
pub open spec fn schedules(
    forks: Seq<(EthereumHardfork, ForkCondition)>,
    fork: EthereumHardfork,
) -> bool {
    exists|i: int| 0 <= i < forks.len() && #[trigger] forks[i].0 == fork
}

/// Where `forks` gives `fork` its condition.
pub open spec fn position(
    forks: Seq<(EthereumHardfork, ForkCondition)>,
    fork: EthereumHardfork,
) -> int {
    choose|i: int| 0 <= i < forks.len() && #[trigger] forks[i].0 == fork
}

/// Whether no fork occurs twice in `forks`.
pub open spec fn no_fork_twice(forks: Seq<(EthereumHardfork, ForkCondition)>) -> bool {
    forall|i: int, j: int|
        0 <= i < j < forks.len() ==> (#[trigger] forks[i]).0 != (#[trigger] forks[j]).0
}

/// `forks` with `fork` activated at `condition`: in its place where it has one, else at the end.
pub open spec fn with_fork(
    forks: Seq<(EthereumHardfork, ForkCondition)>,
    fork: EthereumHardfork,
    condition: ForkCondition,
) -> Seq<(EthereumHardfork, ForkCondition)> {
    if schedules(forks, fork) {
        forks.update(position(forks, fork), (fork, condition))
    } else {
        forks.push((fork, condition))
    }
}

/// Setting a fork leaves no fork twice, and of two conditions that are set for one fork the later
/// one counts: the list, its order included, is what setting that one alone makes of it.
pub proof fn law_last_condition_counts(
    forks: Seq<(EthereumHardfork, ForkCondition)>,
    fork: EthereumHardfork,
    first: ForkCondition,
    second: ForkCondition,
)
    requires
        no_fork_twice(forks),
    ensures
        no_fork_twice(with_fork(forks, fork, first)),
        with_fork(with_fork(forks, fork, first), fork, second) == with_fork(forks, fork, second),
{
    let once = with_fork(forks, fork, first);
    let i = if schedules(forks, fork) {
        position(forks, fork)
    } else {
        forks.len() as int
    };
    assert(once[i].0 == fork);
    assert(position(once, fork) == i) by {
        assert(once[position(once, fork)].0 == once[i].0);
    }
    assert(with_fork(once, fork, second) =~= with_fork(forks, fork, second));
}

/// What setting a fork does to each place of a list: its own place gets the condition, every
/// other one stays as it was, and a fork that had no place gets one after the others.
pub proof fn law_setting_a_fork_changes_its_place_alone(
    forks: Seq<(EthereumHardfork, ForkCondition)>,
    fork: EthereumHardfork,
    condition: ForkCondition,
    i: int,
)
    requires
        no_fork_twice(forks),
        0 <= i < forks.len(),
    ensures
        ({
            let set = with_fork(forks, fork, condition);
            &&& forks[i].0 == fork ==> set.len() == forks.len() && set[i] == (fork, condition)
            &&& forks[i].0 != fork ==> set[i] == forks[i]
            &&& set.len() == forks.len() || (set.len() == forks.len() + 1 && set.last() == (
                fork,
                condition,
            ))
            &&& set.len() == forks.len() <==> exists|j: int|
                0 <= j < forks.len() && (#[trigger] forks[j]).0 == fork
        }),
{
    if schedules(forks, fork) {
        assert(forks[position(forks, fork)].0 == fork);
    }
}

/// A list that holds no fork twice has each fork at one place.
pub proof fn law_each_fork_has_one_place(
    forks: Seq<(EthereumHardfork, ForkCondition)>,
    i: int,
    j: int,
)
    requires
        no_fork_twice(forks),
        0 <= i < forks.len(),
        0 <= j < forks.len(),
        forks[i].0 == forks[j].0,
    ensures
        i == j,
{
}

/// A schedule holds exactly the forks of its list, each with the condition at its place.
pub proof fn law_schedule_is_its_list(
    hardforks: ChainHardforks,
    fork: EthereumHardfork,
    condition: ForkCondition,
)
    requires
        no_fork_twice(hardforks.listed()),
    ensures
        hardforks@.contains_key(fork) && hardforks@[fork] == condition
            <==> hardforks.listed().contains((fork, condition)),
{
    let forks = hardforks.listed();
    if forks.contains((fork, condition)) {
        let i = choose|i: int| 0 <= i < forks.len() && forks[i] == (fork, condition);
        assert(forks[i].0 == fork);
        assert(position(forks, fork) == i);
    }
    if schedules(forks, fork) {
        assert(forks[position(forks, fork)].0 == fork);
    }
}

/// The hardforks of a chain, each with the condition that activates it. No fork occurs twice.
#[derive(Debug)]
pub struct ChainHardforks {
    forks: Vec<(EthereumHardfork, ForkCondition)>,
}

impl View for ChainHardforks {
    type V = Map<EthereumHardfork, ForkCondition>;

    open spec fn view(&self) -> Map<EthereumHardfork, ForkCondition> {
        Map::new(
            |fork: EthereumHardfork| schedules(self.listed(), fork),
            |fork: EthereumHardfork| self.listed()[position(self.listed(), fork)].1,
        )
    }
}

impl ChainHardforks {
    /// The forks in the order in which they were first set.
    pub closed spec fn listed(&self) -> Seq<(EthereumHardfork, ForkCondition)> {
        self.forks@
    }

    /// No fork occurs twice in any schedule.
    #[verifier::type_invariant]
    pub open spec fn lists_no_fork_twice(self) -> bool {
        no_fork_twice(self.listed())
    }

    /// A schedule without any fork.
    pub fn new() -> (r: Self)
        ensures
            r@ == Map::<EthereumHardfork, ForkCondition>::empty(),
            r.listed() == Seq::<(EthereumHardfork, ForkCondition)>::empty(),
    {
        let r = ChainHardforks { forks: Vec::new() };
        assert(r@ =~= Map::<EthereumHardfork, ForkCondition>::empty());
        r
    }

    /// The place of `fork` in the list, or its length if it has none.
    fn find(&self, fork: EthereumHardfork) -> (r: usize)
        ensures
            r <= self.forks@.len(),
            r < self.forks@.len() ==> self.forks@[r as int].0 == fork,
            r == self.forks@.len() <==> !schedules(self.forks@, fork),
    {
        let mut i: usize = 0;
        while i < self.forks.len()
            invariant
                i <= self.forks@.len(),
                forall|j: int| 0 <= j < i ==> (#[trigger] self.forks@[j]).0 != fork,
            decreases self.forks@.len() - i,
        {
            if self.forks[i].0 == fork {
                return i;
            }
            i += 1;
        }
        i
    }

    /// The condition that activates `fork`, if the schedule holds it.
    pub fn get(&self, fork: EthereumHardfork) -> (r: Option<ForkCondition>)
        ensures
            r == (if self@.contains_key(fork) { Some(self@[fork]) } else { None }),
    {
        proof {
            use_type_invariant(self);
        }
        let i: usize = self.find(fork);
        if i < self.forks.len() {
            Some(self.forks[i].1)
        } else {
            None
        }
    }

    /// Sets the condition that activates `fork`, in place of the one that it had, if any. A fork
    /// that had none is added after the others.
    pub fn insert(&mut self, fork: EthereumHardfork, condition: ForkCondition)
        ensures
            final(self)@ == old(self)@.insert(fork, condition),
            final(self).listed() == with_fork(old(self).listed(), fork, condition),
            no_fork_twice(old(self).listed()),
            no_fork_twice(final(self).listed()),
    {
        proof {
            use_type_invariant(&*self);
        }
        let i: usize = self.find(fork);
        let ghost before = self.forks@;
        let mut forks: Vec<(EthereumHardfork, ForkCondition)> = Vec::new();
        std::mem::swap(&mut forks, &mut self.forks);
        if i < forks.len() {
            forks.set(i, (fork, condition));
        } else {
            forks.push((fork, condition));
        }
        self.forks = forks;
        assert(self.forks@[i as int].0 == fork);
        assert(position(self.forks@, fork) == i) by {
            assert(self.forks@[position(self.forks@, fork)].0 == self.forks@[i as int].0);
        }
        assert forall|f: EthereumHardfork| f != fork && schedules(before, f) implies schedules(
            self.forks@,
            f,
        ) && self.forks@[position(self.forks@, f)] == before[position(before, f)] by {
            assert(self.forks@[position(before, f)] == before[position(before, f)]);
        }
        assert forall|f: EthereumHardfork| f != fork && schedules(self.forks@, f) implies schedules(
            before,
            f,
        ) by {
            assert(before[position(self.forks@, f)].0 == f);
        }
        assert(self@ =~= old(self)@.insert(fork, condition));
    }
}

/// A chain specification. What it holds beside the fork schedule is `rest`.
#[derive(Debug)]
pub struct ChainSpec<Rest> {
    /// The active hard forks and their activation conditions.
    pub hardforks: ChainHardforks,
    /// Everything else: the genesis, the chain's identifier and so on.
    pub rest: Rest,
}

} // verus!
