use reth_node_logic::hardfork_overrides::{
    ApplyHardforkOverrides, ArgsError, EthereumExtArgs, EthereumHardforkOverrideArgs,
    OVERRIDE_PRAGUE,
};
use reth_node_logic::hardforks::{ChainHardforks, ChainSpec, EthereumHardfork, ForkCondition};

type TestSpec = ChainSpec<&'static str>;

fn argv(args: &[&str]) -> Vec<String> {
    args.iter().map(|arg| arg.to_string()).collect()
}

fn spec_with_cancun() -> TestSpec {
    let mut hardforks = ChainHardforks::new();
    hardforks.insert(EthereumHardfork::Cancun, ForkCondition::Timestamp(1710338135));
    hardforks.insert(EthereumHardfork::Prague, ForkCondition::Timestamp(1746612311));
    ChainSpec { hardforks, rest: "chain 1" }
}

#[test]
fn test_parse_eth_hardfork_overrides() {
    let expected_args = EthereumHardforkOverrideArgs { prague: Some(1) };
    let args = EthereumHardforkOverrideArgs::try_parse_from(&argv(&[
        "reth",
        "--override.prague",
        "1",
    ]))
    .unwrap();
    assert_eq!(args, expected_args);
}

#[test]
fn parse_without_override() {
    assert_eq!(
        EthereumHardforkOverrideArgs::try_parse_from(&argv(&["reth"])),
        Ok(EthereumHardforkOverrideArgs::default())
    );
    assert_eq!(
        EthereumHardforkOverrideArgs::try_parse_from(&argv(&[])),
        Ok(EthereumHardforkOverrideArgs { prague: None })
    );
}

#[test]
fn parse_limits_of_the_timestamp() {
    let max = u64::MAX.to_string();
    assert_eq!(
        EthereumHardforkOverrideArgs::try_parse_from(&argv(&["reth", "--override.prague", &max]))
            .unwrap()
            .prague,
        Some(u64::MAX)
    );
    assert_eq!(
        EthereumHardforkOverrideArgs::try_parse_from(&argv(&["reth", "--override.prague", "0042"]))
            .unwrap()
            .prague,
        Some(42)
    );
    assert!(EthereumHardforkOverrideArgs::try_parse_from(&argv(&[
        "reth",
        "--override.prague",
        "18446744073709551616",
    ]))
    .is_err());
}

#[test]
fn parse_other_forms() {
    assert_eq!(
        EthereumHardforkOverrideArgs::try_parse_from(&argv(&["reth", "--override.prague=7"]))
            .unwrap()
            .prague,
        Some(7)
    );
    for rejected in [
        &["reth", "--override.prague"][..],
        &["reth", "--override.prague", "soon"],
        &["reth", "--override.prague", "-1"],
        &["reth", "--override.osaka", "1"],
        &["reth", "1"],
        &["reth", "--help"],
    ] {
        let error = EthereumHardforkOverrideArgs::try_parse_from(&argv(rejected)).unwrap_err();
        assert!(!error.message.is_empty());
    }
}

#[test]
fn option_value_becomes_args() {
    assert_eq!(OVERRIDE_PRAGUE, "override.prague");
    assert_eq!(
        EthereumHardforkOverrideArgs::from_prague_option(Ok(Some(5))),
        Ok(EthereumHardforkOverrideArgs { prague: Some(5) })
    );
    assert_eq!(
        EthereumHardforkOverrideArgs::from_prague_option(Ok(None)),
        Ok(EthereumHardforkOverrideArgs { prague: None })
    );
    assert_eq!(
        EthereumHardforkOverrideArgs::from_prague_option(Err("no".to_string())),
        Err(ArgsError { message: "no".to_string() })
    );
}

#[test]
fn apply_to_calls_the_closure_once_or_not_at_all() {
    let mut calls = Vec::new();
    EthereumHardforkOverrideArgs { prague: Some(9) }.apply_to(|fork, condition| {
        calls.push((fork, condition));
    });
    assert_eq!(calls, vec![(EthereumHardfork::Prague, ForkCondition::Timestamp(9))]);

    let mut calls = Vec::new();
    EthereumHardforkOverrideArgs { prague: None }.apply_to(|fork, condition| {
        calls.push((fork, condition));
    });
    assert!(calls.is_empty());
}

#[test]
fn override_touches_prague_only() {
    let mut spec = spec_with_cancun();
    EthereumHardforkOverrideArgs { prague: Some(3) }.apply_hardfork_overrides(&mut spec);
    assert_eq!(
        spec.hardforks.get(EthereumHardfork::Prague),
        Some(ForkCondition::Timestamp(3))
    );
    assert_eq!(
        spec.hardforks.get(EthereumHardfork::Cancun),
        Some(ForkCondition::Timestamp(1710338135))
    );
    assert_eq!(spec.hardforks.get(EthereumHardfork::Osaka), None);
    assert_eq!(spec.rest, "chain 1");

    EthereumHardforkOverrideArgs::default().apply_hardfork_overrides(&mut spec);
    assert_eq!(
        spec.hardforks.get(EthereumHardfork::Prague),
        Some(ForkCondition::Timestamp(3))
    );
}

#[test]
fn last_override_counts() {
    let mut spec = ChainSpec { hardforks: ChainHardforks::new(), rest: "chain 1" };
    EthereumHardforkOverrideArgs { prague: Some(3) }.apply_hardfork_overrides(&mut spec);
    EthereumHardforkOverrideArgs { prague: Some(4) }.apply_hardfork_overrides(&mut spec);
    assert_eq!(
        spec.hardforks.get(EthereumHardfork::Prague),
        Some(ForkCondition::Timestamp(4))
    );
}

#[test]
fn ext_args_apply_their_overrides() {
    let mut spec = spec_with_cancun();
    let args = EthereumExtArgs {
        ress: "ress",
        overrides: EthereumHardforkOverrideArgs { prague: Some(11) },
    };
    args.apply_hardfork_overrides(&mut spec);
    assert_eq!(
        spec.hardforks.get(EthereumHardfork::Prague),
        Some(ForkCondition::Timestamp(11))
    );

    let copy = args.clone();
    assert_eq!((copy.ress, copy.overrides), (args.ress, args.overrides));

    let defaults = EthereumExtArgs::<u8>::default();
    assert_eq!(defaults.overrides, EthereumHardforkOverrideArgs::default());
    defaults.apply_hardfork_overrides(&mut spec);
    assert_eq!(
        spec.hardforks.get(EthereumHardfork::Prague),
        Some(ForkCondition::Timestamp(11))
    );
}

fn empty_spec() -> TestSpec {
    ChainSpec { hardforks: ChainHardforks::new(), rest: "chain 1" }
}

/// The whole schedule, in its order.
fn shown(spec: &TestSpec) -> String {
    format!("{:?}", spec)
}

#[test]
fn forks_keep_their_place() {
    let mut in_order = spec_with_cancun();
    in_order.hardforks.insert(EthereumHardfork::Cancun, ForkCondition::Never);
    let mut expected = ChainHardforks::new();
    expected.insert(EthereumHardfork::Cancun, ForkCondition::Never);
    expected.insert(EthereumHardfork::Prague, ForkCondition::Timestamp(1746612311));
    assert_eq!(shown(&in_order), shown(&ChainSpec { hardforks: expected, rest: "chain 1" }));
}

#[test]
fn overrides_act_on_the_whole_schedule() {
    for before in [spec_with_cancun as fn() -> TestSpec, empty_spec] {
        let overrides = EthereumHardforkOverrideArgs { prague: Some(7) };
        let mut once = before();
        overrides.apply_hardfork_overrides(&mut once);
        assert_ne!(shown(&once), shown(&before()));

        let mut twice = before();
        overrides.apply_hardfork_overrides(&mut twice);
        overrides.apply_hardfork_overrides(&mut twice);
        assert_eq!(shown(&twice), shown(&once));

        let mut by_ext_args = before();
        EthereumExtArgs { ress: 1, overrides }.apply_hardfork_overrides(&mut by_ext_args);
        assert_eq!(shown(&by_ext_args), shown(&once));

        let mut unchanged = before();
        EthereumHardforkOverrideArgs::default().apply_hardfork_overrides(&mut unchanged);
        EthereumExtArgs::<u8>::default().apply_hardfork_overrides(&mut unchanged);
        assert_eq!(shown(&unchanged), shown(&before()));
    }
}

struct NoOverrides;

impl ApplyHardforkOverrides<Vec<u8>> for NoOverrides {}

#[test]
fn default_application_does_nothing() {
    let mut spec = vec![1, 2, 3];
    NoOverrides.apply_hardfork_overrides(&mut spec);
    assert_eq!(spec, vec![1, 2, 3]);
}
