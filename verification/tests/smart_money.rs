use indicator_core::smart_money::{categorize, SmartMoneyStructureLinker, StructureCategory};

fn kinds(k: &[&str]) -> Vec<String> {
    k.iter().map(|s| s.to_string()).collect()
}

#[test]
fn test_linker_requires_break_plus_corroboration() {
    let mut linker = SmartMoneyStructureLinker::new(5);

    // A structure break alone, no corroboration, must not link.
    linker.observe(10, &kinds(&["structure_break"]));
    assert!(linker.check_confluence(10).is_none());

    // A liquidity sweep shortly before a later break must corroborate it.
    let mut linker = SmartMoneyStructureLinker::new(5);
    linker.observe(8, &kinds(&["sweep"]));
    linker.observe(10, &kinds(&["structure_break"]));

    let event = linker.check_confluence(10).unwrap();
    assert!(event.categories.contains(&StructureCategory::Break));
    assert!(event.categories.contains(&StructureCategory::Liquidity));
    assert!(event.confluence_quarters() > 0);
}

#[test]
fn test_linker_ignores_break_outside_current_bar() {
    let mut linker = SmartMoneyStructureLinker::new(5);
    linker.observe(8, &kinds(&["sweep"]));
    linker.observe(9, &kinds(&["structure_break"]));
    assert!(linker.check_confluence(10).is_none());
}

#[test]
fn linker_prunes_events_older_than_the_window() {
    let mut linker = SmartMoneyStructureLinker::new(2);
    linker.observe(1, &kinds(&["bullish_fvg"]));
    linker.observe(10, &kinds(&["structure_break"]));
    // The gap at bar 1 lies nine bars back, beyond a two-bar window.
    assert!(linker.check_confluence(10).is_none());
}

#[test]
fn linker_lists_families_once_in_order_with_all_kinds() {
    let mut linker = SmartMoneyStructureLinker::new(5);
    linker.observe(7, &kinds(&["fvg_filled", "ob_retest_bullish"]));
    linker.observe(8, &kinds(&["liquidity_pool_reclaim", "unrelated"]));
    linker.observe(9, &kinds(&["structure_break", "bearish_fvg"]));
    let e = linker.check_confluence(9).unwrap();
    assert_eq!(
        e.categories,
        vec![
            StructureCategory::Break,
            StructureCategory::Liquidity,
            StructureCategory::OrderBlock,
            StructureCategory::Fvg
        ]
    );
    assert_eq!(e.confluence_quarters(), 4);
    assert_eq!(e.kinds.len(), 6);
    assert_eq!(e.timestamp, 9);
    linker.reset();
    assert!(linker.check_confluence(9).is_none());
}

#[test]
fn categorize_covers_the_four_families() {
    assert_eq!(categorize("structure_break"), Some(StructureCategory::Break));
    assert_eq!(categorize("bearish_liquidity_sweep"), Some(StructureCategory::Liquidity));
    assert_eq!(categorize("bearish_order_block"), Some(StructureCategory::OrderBlock));
    assert_eq!(categorize("bullish_fvg"), Some(StructureCategory::Fvg));
    assert_eq!(categorize("structure_breaks"), None);
    assert_eq!(categorize(""), None);
}
