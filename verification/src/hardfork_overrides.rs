//! Command line arguments that override hardfork activations.

use crate::hardforks::{
    law_last_condition_counts, no_fork_twice, with_fork, ChainSpec, EthereumHardfork, ForkCondition,
};
use vstd::arithmetic::power::pow;
use vstd::prelude::*;

verus! {

/// A trait that allows CLI extension args to apply hardfork overrides to a chain spec.
pub trait ApplyHardforkOverrides<CS> {
    /// Mutates the provided chain spec clone by applying any overrides. Does nothing by default.
    fn apply_hardfork_overrides(&self, _spec: &mut CS)
        default_ensures
            *final(_spec) == *old(_spec),
    {
    }
}

/// CLI args to override Ethereum hardfork activations.
#[derive(Debug, Clone, Copy, PartialEq, Eq)]
pub struct EthereumHardforkOverrideArgs {
    /// Override Prague hardfork activation timestamp.
    pub prague: Option<u64>,
}

impl Default for EthereumHardforkOverrideArgs {
    /// No override.
    fn default() -> (r: Self)
        ensures
            r.prague is None,
    {
        EthereumHardforkOverrideArgs { prague: None }
    }
}

/// The schedule `forks` with Prague activated at `prague`, where that is given.
pub open spec fn overridden(
    forks: Map<EthereumHardfork, ForkCondition>,
    prague: Option<u64>,
) -> Map<EthereumHardfork, ForkCondition> {
    match prague {
        Some(ts) => forks.insert(EthereumHardfork::Prague, ForkCondition::Timestamp(ts)),
        None => forks,
    }
}

/// The list `forks` with Prague activated at `prague`, where that is given.
pub open spec fn overridden_list(
    forks: Seq<(EthereumHardfork, ForkCondition)>,
    prague: Option<u64>,
) -> Seq<(EthereumHardfork, ForkCondition)> {
    match prague {
        Some(ts) => with_fork(forks, EthereumHardfork::Prague, ForkCondition::Timestamp(ts)),
        None => forks,
    }
}

/// What `args` make of the chain spec `before`: its schedule with Prague overridden, the rest of
/// it as it was, and without an override `before` itself.
pub open spec fn applied<Rest>(
    args: EthereumHardforkOverrideArgs,
    before: ChainSpec<Rest>,
    after: ChainSpec<Rest>,
) -> bool {
    &&& after.hardforks@ == overridden(before.hardforks@, args.prague)
    &&& after.hardforks.listed() == overridden_list(before.hardforks.listed(), args.prague)
    &&& after.rest == before.rest
    &&& args.prague is None ==> after == before
}

impl EthereumHardforkOverrideArgs {
    /// Apply the overrides to the provided hardfork mutator closure, which is called once where
    /// Prague is overridden and else not at all.
    pub fn apply_to<F>(&self, set: F) where F: FnOnce(EthereumHardfork, ForkCondition)
        requires
            self.prague matches Some(ts) ==> call_requires(
                set,
                (EthereumHardfork::Prague, ForkCondition::Timestamp(ts)),
            ),
        ensures
            self.prague matches Some(ts) ==> call_ensures(
                set,
                (EthereumHardfork::Prague, ForkCondition::Timestamp(ts)),
                (),
            ),
    {
        if let Some(ts) = self.prague {
            set(EthereumHardfork::Prague, ForkCondition::Timestamp(ts));
        }
    }
}

impl<Rest> ApplyHardforkOverrides<ChainSpec<Rest>> for EthereumHardforkOverrideArgs {
    fn apply_hardfork_overrides(&self, spec: &mut ChainSpec<Rest>)
        ensures
            self.prague matches Some(ts) ==> final(spec).hardforks@.contains_key(
                EthereumHardfork::Prague,
            ) && final(spec).hardforks@[EthereumHardfork::Prague] == ForkCondition::Timestamp(ts),
            forall|fork: EthereumHardfork|
                fork != EthereumHardfork::Prague ==> {
                    &&& #[trigger] final(spec).hardforks@.contains_key(fork) == old(
                        spec,
                    ).hardforks@.contains_key(fork)
                    &&& final(spec).hardforks@.contains_key(fork) ==> final(spec).hardforks@[fork]
                        == old(spec).hardforks@[fork]
                },
            final(spec).rest == old(spec).rest,
            self.prague is None ==> *final(spec) == *old(spec),
            applied(*self, *old(spec), *final(spec)),
            no_fork_twice(old(spec).hardforks.listed()),
            no_fork_twice(final(spec).hardforks.listed()),
    {
        proof {
            use_type_invariant(&spec.hardforks);
        }
        if let Some(ts) = self.prague {
            spec.hardforks.insert(EthereumHardfork::Prague, ForkCondition::Timestamp(ts));
        }
    }
}

/// The name of the option that overrides the Prague activation timestamp, without its dashes.
pub const OVERRIDE_PRAGUE: &'static str = "override.prague";

/// Why command line arguments were rejected.
#[derive(Debug, PartialEq, Eq)]
pub struct ArgsError {
    /// What to tell the user.
    pub message: String,
}

/// The characters of each command line argument.
pub open spec fn chars_of(argv: Seq<String>) -> Seq<Seq<char>> {
    argv.map_values(|arg: String| arg@)
}

/// Whether `text` is a number in decimal digits.
pub open spec fn is_decimal(text: Seq<char>) -> bool {
    &&& text.len() > 0
    &&& forall|i: int| 0 <= i < text.len() ==> '0' <= #[trigger] text[i] <= '9'
}

/// The number that the decimal digits `text` stand for.
pub open spec fn decimal_value(text: Seq<char>) -> nat
    decreases text.len(),
{
    if text.len() == 0 {
        0
    } else {
        decimal_value(text.drop_last()) * 10 + (text.last() as nat - '0' as nat) as nat
    }
}

/// Whether `argv` is a program name and the option `--long` with the value `text`, either as the
/// next argument or after `=` in the same one.
pub open spec fn gives_value(argv: Seq<Seq<char>>, long: Seq<char>, text: Seq<char>) -> bool {
    let option = seq!['-', '-'] + long;
    ||| argv.len() == 3 && argv[1] == option && argv[2] == text
    ||| argv.len() == 2 && argv[1] == option + seq!['='] + text
}

/// Whether `long` can name an option beside the help option that every command has.
pub open spec fn is_option_name(long: Seq<char>) -> bool {
    &&& long.len() > 0
    &&& long[0] != '-'
    &&& !long.contains('=')
    &&& long != "help"@
}

/// The value of an option in arguments that were not rejected.
pub open spec fn accepted(parsed: Result<Option<u64>, String>) -> Option<Option<u64>> {
    match parsed {
        Ok(value) => Some(value),
        Err(_) => None,
    }
}

/// What an option with a `u64` value makes of `number`: nothing where it does not fit.
pub open spec fn in_u64(number: nat) -> Option<Option<u64>> {
    if number <= u64::MAX {
        Some(Some(number as u64))
    } else {
        None
    }
}

/// What `clap::Command::try_get_matches_from` makes of `argv` on a command whose one option is
/// `--long` with a `u64` value: the value, if the option is given; no result where `argv` is
/// rejected.
pub uninterp spec fn parsed_u64_option(argv: Seq<Seq<char>>, long: Seq<char>) -> Option<
    Option<u64>,
>;

/// Parses `argv` by `clap::Command::try_get_matches_from`, on a command whose one option is
/// `--long` with a `u64` value, and takes the option's value.
///
/// The result is a function of `argv` and `long`, but for the text of the error, of which
/// nothing is said. A program name alone gives no value. A program name and the option with a
/// decimal number give that number, and are rejected where it does not fit.
#[verifier::external_body]
fn parse_u64_option(argv: &Vec<String>, long: &'static str) -> (r: Result<Option<u64>, String>)
    requires
        is_option_name(long@),
    ensures
        accepted(r) == parsed_u64_option(chars_of(argv@), long@),
        argv@.len() <= 1 ==> accepted(r) == Some(None::<u64>),
        forall|text: Seq<char>| #[trigger]
            gives_value(chars_of(argv@), long@, text) && is_decimal(text) ==> accepted(r) == in_u64(
                decimal_value(text),
            ),
{
    let parser = clap::builder::RangedU64ValueParser::<u64>::new();
    let option = clap::Arg::new(long).long(long).value_parser(parser);
    match clap::Command::default().arg(option).try_get_matches_from(argv) {
        Ok(matches) => Ok(matches.get_one::<u64>(long).copied()),
        Err(error) => Err(error.to_string()),
    }
}

/// The timestamp that accepted arguments give for Prague.
pub open spec fn prague_of(parsed: Result<EthereumHardforkOverrideArgs, ArgsError>) -> Option<
    Option<u64>,
> {
    match parsed {
        Ok(args) => Some(args.prague),
        Err(_) => None,
    }
}

impl EthereumHardforkOverrideArgs {
    /// The arguments that the value of the Prague option makes, or why it was rejected.
    pub fn from_prague_option(parsed: Result<Option<u64>, String>) -> (r: Result<Self, ArgsError>)
        ensures
            parsed matches Ok(prague) ==> (r matches Ok(args) && args.prague == prague),
            parsed matches Err(message) ==> (r matches Err(error) && error.message == message),
    {
        match parsed {
            Ok(prague) => Ok(EthereumHardforkOverrideArgs { prague }),
            Err(message) => Err(ArgsError { message }),
        }
    }

    /// Parses the command line `argv`, whose first item is the name of the program.
    pub fn try_parse_from(argv: &Vec<String>) -> (r: Result<Self, ArgsError>)
        ensures
            argv@.len() <= 1 ==> (r matches Ok(args) && args.prague is None),
            argv@.len() == 3 && argv@[1]@ == "--override.prague"@ && is_decimal(argv@[2]@) ==> {
                &&& r is Ok <==> decimal_value(argv@[2]@) <= u64::MAX
                &&& r matches Ok(args) ==> (args.prague matches Some(ts) && ts == decimal_value(
                    argv@[2]@,
                ))
            },
            forall|text: Seq<char>|
                argv@.len() == 2 && argv@[1]@ == "--override.prague="@ + text && #[trigger]
                    is_decimal(text) ==> {
                    &&& r is Ok <==> decimal_value(text) <= u64::MAX
                    &&& r matches Ok(args) ==> (args.prague matches Some(ts) && ts
                        == decimal_value(text))
                },
            parsed_u64_option(chars_of(argv@), "override.prague"@) matches Some(prague) ==> (
            r matches Ok(args) && args.prague == prague),
            parsed_u64_option(chars_of(argv@), "override.prague"@) is None ==> r is Err,
            prague_of(r) == parsed_u64_option(chars_of(argv@), OVERRIDE_PRAGUE@),
            argv@.len() <= 1 ==> prague_of(r) == Some(None::<u64>),
            forall|text: Seq<char>| #[trigger]
                gives_value(chars_of(argv@), OVERRIDE_PRAGUE@, text) && is_decimal(text)
                    ==> prague_of(r) == in_u64(decimal_value(text)),
    {
        proof {
            reveal_strlit("override.prague");
            reveal_strlit("help");
            assert(OVERRIDE_PRAGUE@[0] == 'o');
            reveal_strlit("--override.prague");
            reveal_strlit("--override.prague=");
            let option = seq!['-', '-'] + OVERRIDE_PRAGUE@;
            let given = chars_of(argv@);
            assert("--override.prague"@ =~= option);
            assert("--override.prague="@ =~= option + seq!['=']);
            if argv@.len() == 3 && argv@[1]@ == "--override.prague"@ {
                assert(given[1] == option);
                assert(gives_value(given, OVERRIDE_PRAGUE@, argv@[2]@));
            }
            assert forall|text: Seq<char>|
                argv@.len() == 2 && argv@[1]@ == "--override.prague="@ + text && #[trigger]
                    is_decimal(text) implies gives_value(given, OVERRIDE_PRAGUE@, text) by {
                assert(given[1] == option + seq!['='] + text);
            }
        }
        EthereumHardforkOverrideArgs::from_prague_option(parse_u64_option(argv, OVERRIDE_PRAGUE))
    }
}

/// Overrides touch Prague alone: it is activated at the timestamp that is given for it, every
/// other fork is as it was, and without a timestamp so is Prague.
pub proof fn law_override_touches_prague_only(
    forks: Map<EthereumHardfork, ForkCondition>,
    prague: Option<u64>,
    fork: EthereumHardfork,
)
    ensures
        prague is None ==> overridden(forks, prague) == forks,
        prague matches Some(ts) ==> {
            &&& overridden(forks, prague).contains_key(EthereumHardfork::Prague)
            &&& overridden(forks, prague)[EthereumHardfork::Prague] == ForkCondition::Timestamp(ts)
        },
        fork != EthereumHardfork::Prague ==> {
            &&& overridden(forks, prague).contains_key(fork) == forks.contains_key(fork)
            &&& forks.contains_key(fork) ==> overridden(forks, prague)[fork] == forks[fork]
        },
{
}

/// Of two overrides of the same chain spec the later one counts: the schedule, the order of its
/// forks among it, is what the later one alone makes of it. So the same override twice counts
/// once, and does not enter Prague a second time.
pub proof fn law_last_override_counts(
    forks: Map<EthereumHardfork, ForkCondition>,
    list: Seq<(EthereumHardfork, ForkCondition)>,
    first: Option<u64>,
    second: Option<u64>,
)
    requires
        no_fork_twice(list),
    ensures
        ({
            let counts = if second is Some {
                second
            } else {
                first
            };
            &&& overridden(overridden(forks, first), second) == overridden(forks, counts)
            &&& overridden_list(overridden_list(list, first), second) == overridden_list(
                list,
                counts,
            )
            &&& no_fork_twice(overridden_list(list, first))
        }),
{
    if let (Some(a), Some(b)) = (first, second) {
        assert(overridden(overridden(forks, first), second) =~= overridden(forks, second));
    }
    if let Some(a) = first {
        law_last_condition_counts(
            list,
            EthereumHardfork::Prague,
            ForkCondition::Timestamp(a),
            ForkCondition::Timestamp(if second is Some {
                second->Some_0
            } else {
                a
            }),
        );
    }
}

/// Applying the same arguments a second time leaves the chain spec with the schedule, the order
/// of its forks among it, that the first time gave it, and with the same rest.
pub proof fn law_applying_twice_is_applying_once<Rest>(
    args: EthereumHardforkOverrideArgs,
    before: ChainSpec<Rest>,
    once: ChainSpec<Rest>,
    twice: ChainSpec<Rest>,
)
    requires
        no_fork_twice(before.hardforks.listed()),
        applied(args, before, once),
        applied(args, once, twice),
    ensures
        twice.hardforks.listed() == once.hardforks.listed(),
        twice.hardforks@ == once.hardforks@,
        twice.rest == once.rest,
        args.prague is None ==> twice == once,
{
    law_last_override_counts(
        before.hardforks@,
        before.hardforks.listed(),
        args.prague,
        args.prague,
    );
}

/// Composite ETH ext args: the arguments `ress` of the Ress subprotocol plus hardfork overrides.
#[derive(Debug, Default)]
pub struct EthereumExtArgs<R> {
    /// Ress subprotocol arguments.
    pub ress: R,
    /// Ethereum hardfork override arguments.
    pub overrides: EthereumHardforkOverrideArgs,
}

impl<R> EthereumExtArgs<R> {
    /// What the arguments make of the chain spec `before`.
    pub open spec fn applied<Rest>(self, before: ChainSpec<Rest>, after: ChainSpec<Rest>) -> bool {
        applied(self.overrides, before, after)
    }
}

impl<R: Clone> Clone for EthereumExtArgs<R> {
    fn clone(&self) -> (r: Self)
        ensures
            cloned(self.ress, r.ress),
            r.overrides == self.overrides,
    {
        EthereumExtArgs { ress: self.ress.clone(), overrides: self.overrides }
    }
}

impl<R, Rest> ApplyHardforkOverrides<ChainSpec<Rest>> for EthereumExtArgs<R> {
    fn apply_hardfork_overrides(&self, spec: &mut ChainSpec<Rest>)
        ensures
            self.overrides.prague matches Some(ts) ==> final(spec).hardforks@.contains_key(
                EthereumHardfork::Prague,
            ) && final(spec).hardforks@[EthereumHardfork::Prague] == ForkCondition::Timestamp(ts),
            forall|fork: EthereumHardfork|
                fork != EthereumHardfork::Prague ==> {
                    &&& #[trigger] final(spec).hardforks@.contains_key(fork) == old(
                        spec,
                    ).hardforks@.contains_key(fork)
                    &&& final(spec).hardforks@.contains_key(fork) ==> final(spec).hardforks@[fork]
                        == old(spec).hardforks@[fork]
                },
            final(spec).rest == old(spec).rest,
            self.overrides.prague is None ==> *final(spec) == *old(spec),
            self.applied(*old(spec), *final(spec)),
            no_fork_twice(old(spec).hardforks.listed()),
            no_fork_twice(final(spec).hardforks.listed()),
    {
        self.overrides.apply_hardfork_overrides(spec)
    }
}

/// The composite arguments act on a chain spec as their overrides do, whatever the arguments of
/// the Ress subprotocol are: from one chain spec both make the same schedule, the order of its
/// forks among it, and leave the rest as it was.
pub proof fn law_ext_args_act_as_their_overrides<R, Rest>(
    args: EthereumExtArgs<R>,
    before: ChainSpec<Rest>,
    by_overrides: ChainSpec<Rest>,
    by_ext_args: ChainSpec<Rest>,
)
    requires
        applied(args.overrides, before, by_overrides),
        args.applied(before, by_ext_args),
    ensures
        by_ext_args.hardforks.listed() == by_overrides.hardforks.listed(),
        by_ext_args.hardforks@ == by_overrides.hardforks@,
        by_ext_args.rest == by_overrides.rest,
        args.overrides.prague is None ==> by_ext_args == by_overrides,
{
}

/// What arguments do to a chain spec: Prague is activated at the timestamp that they give for it,
/// whatever it is, every other fork and the rest of the chain spec are as they were, and without
/// a timestamp all of it is. The composite arguments do the same by their overrides.
pub proof fn law_arguments_activate_prague_at_their_timestamp<R, Rest>(
    args: EthereumExtArgs<R>,
    before: ChainSpec<Rest>,
    after: ChainSpec<Rest>,
    fork: EthereumHardfork,
)
    requires
        applied(args.overrides, before, after) || args.applied(before, after),
    ensures
        args.overrides.prague matches Some(ts) ==> {
            &&& after.hardforks@.contains_key(EthereumHardfork::Prague)
            &&& after.hardforks@[EthereumHardfork::Prague] == ForkCondition::Timestamp(ts)
        },
        fork != EthereumHardfork::Prague ==> {
            &&& after.hardforks@.contains_key(fork) == before.hardforks@.contains_key(fork)
            &&& before.hardforks@.contains_key(fork) ==> after.hardforks@[fork]
                == before.hardforks@[fork]
        },
        after.rest == before.rest,
        args.overrides.prague is None ==> after == before,
{
}

/// Overrides with different timestamps make different schedules of one chain spec.
pub proof fn law_different_overrides_differ<Rest>(
    a: EthereumHardforkOverrideArgs,
    b: EthereumHardforkOverrideArgs,
    before: ChainSpec<Rest>,
    after_a: ChainSpec<Rest>,
    after_b: ChainSpec<Rest>,
)
    requires
        a.prague is Some,
        b.prague is Some,
        applied(a, before, after_a),
        applied(b, before, after_b),
    ensures
        after_a.hardforks@ == after_b.hardforks@ <==> a.prague == b.prague,
{
    assert(after_a.hardforks@[EthereumHardfork::Prague] == ForkCondition::Timestamp(
        a.prague->Some_0,
    ));
    assert(after_b.hardforks@[EthereumHardfork::Prague] == ForkCondition::Timestamp(
        b.prague->Some_0,
    ));
}

/// What digits stand for: a single one for itself, and digits after others for the others shifted
/// by their number, plus themselves.
pub proof fn law_decimal_value_is_positional(a: Seq<char>, b: Seq<char>, digit: char)
    ensures
        '0' <= digit <= '9' ==> decimal_value(seq![digit]) == digit as nat - '0' as nat,
        is_decimal(a) && is_decimal(b) ==> decimal_value(a + b) == decimal_value(a) * pow(
            10,
            b.len(),
        ) + decimal_value(b),
    decreases b.len(),
{
    reveal_with_fuel(decimal_value, 2);
    assert(seq![digit].drop_last() =~= Seq::<char>::empty());
    if is_decimal(a) && is_decimal(b) {
        let rest = b.drop_last();
        assert((a + b).drop_last() =~= a + rest);
        assert((a + b).last() == b.last());
        assert(pow(10, b.len()) == 10 * pow(10, rest.len())) by {
            reveal(pow);
        }
        if rest.len() == 0 {
            assert(a + rest =~= a);
            assert(pow(10, rest.len()) == 1) by {
                reveal(pow);
            }
        } else {
            assert forall|i: int| 0 <= i < rest.len() implies '0' <= #[trigger] rest[i] <= '9' by {
                assert(rest[i] == b[i]);
            }
            law_decimal_value_is_positional(a, rest, digit);
        }
        let high = decimal_value(a) as int;
        let shift = pow(10, rest.len());
        assert((high * shift) * 10 == high * (10 * shift)) by (nonlinear_arith);
    }
}

/// A number in decimal digits is a digit, or two such numbers one after the other.
pub proof fn law_decimal_is_made_of_digits(a: Seq<char>, b: Seq<char>, digit: char)
    ensures
        !is_decimal(Seq::<char>::empty()),
        is_decimal(seq![digit]) <==> '0' <= digit <= '9',
        a.len() > 0 && b.len() > 0 ==> (is_decimal(a + b) <==> is_decimal(a) && is_decimal(b)),
{
    assert(seq![digit][0] == digit);
    let both = a + b;
    if is_decimal(both) {
        assert forall|i: int| 0 <= i < a.len() implies '0' <= #[trigger] a[i] <= '9' by {
            assert(both[i] == a[i]);
        }
        assert forall|i: int| 0 <= i < b.len() implies '0' <= #[trigger] b[i] <= '9' by {
            assert(both[a.len() + i] == b[i]);
        }
    }
}

/// The option has the value that follows it, as the next argument or after `=`, and a value that
/// is parsed is kept as it is where it fits, and rejected else.
pub proof fn law_option_value_is_kept(
    program: Seq<char>,
    long: Seq<char>,
    text: Seq<char>,
    number: nat,
    parsed: Result<Option<u64>, String>,
    args: Result<EthereumHardforkOverrideArgs, ArgsError>,
)
    ensures
        gives_value(seq![program, seq!['-', '-'] + long, text], long, text),
        gives_value(seq![program, seq!['-', '-'] + long + seq!['='] + text], long, text),
        number <= u64::MAX ==> (in_u64(number) matches Some(Some(value)) && value == number),
        number > u64::MAX ==> in_u64(number) is None,
        parsed matches Ok(value) ==> accepted(parsed) == Some(value),
        parsed is Err ==> accepted(parsed) is None,
        args matches Ok(a) ==> prague_of(args) == Some(a.prague),
        args is Err ==> prague_of(args) is None,
{
}

} // verus!
