use spotatui::decision::{advance_decision, Decision};

#[test]
fn advance_decision_full_table() {
    assert_eq!(advance_decision(false, false, true, 3), Decision::Nothing);
    assert_eq!(advance_decision(false, true, false, 0), Decision::Nothing);
    assert_eq!(advance_decision(true, true, true, 3), Decision::Nothing);

    assert_eq!(advance_decision(true, false, true, 1), Decision::SuspendToQueue);
    assert_eq!(advance_decision(true, false, false, 1), Decision::SuspendToQueue);
    assert_eq!(advance_decision(true, false, true, 5), Decision::SuspendToQueue);

    assert_eq!(advance_decision(true, false, true, 0), Decision::AdvanceContext);
    assert_eq!(advance_decision(true, false, false, 0), Decision::Teardown);
}
