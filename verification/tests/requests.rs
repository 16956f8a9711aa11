use sev_step_lib::types::PageTrackMode;
use sev_step_lib::vmserver_client::req_resp_ds::{
    AccessType, PingPongPageTrackInitResp, PingPongPageTrackReq, SingleStepTarget,
    SingleStepVictimInitReq, SingleStepVictimInitResp, SingleStepVictimStartReq,
};

#[test]
fn access_type_names_go_both_ways() {
    for access in [AccessType::READ, AccessType::WRITE, AccessType::EXEC] {
        assert_eq!(AccessType::from_str(&access.to_string()), Ok(access));
    }
    assert_eq!(AccessType::READ.to_string(), "READ");
    assert_eq!(AccessType::WRITE.to_string(), "WRITE");
    assert_eq!(AccessType::EXEC.to_string(), "EXEC");
}

#[test]
fn unknown_access_type_is_refused() {
    assert_eq!(AccessType::from_str("read"), Err("not a valid access type".to_string()));
    assert_eq!(AccessType::from_str(""), Err("not a valid access type".to_string()));
    assert_eq!(AccessType::from_str("READ "), Err("not a valid access type".to_string()));
}

#[test]
fn track_modes_have_their_access_types() {
    assert_eq!(AccessType::from(PageTrackMode::Write), AccessType::WRITE);
    assert_eq!(AccessType::from(PageTrackMode::Access), AccessType::READ);
    assert_eq!(AccessType::from(PageTrackMode::Exec), AccessType::EXEC);
}

#[test]
fn victim_program_names_go_both_ways() {
    let all = [
        (SingleStepTarget::NopSlide, "NopSlide"),
        (SingleStepTarget::SimpleCacheTarget, "SimpleCacheTarget"),
        (SingleStepTarget::SimpleCacheTargetLfence, "SimpleCacheTargetLfence"),
        (SingleStepTarget::EvalCacheTarget, "EvalCacheTarget"),
        (SingleStepTarget::EvalCacheTargetLfence, "EvalCacheTargetLfence"),
    ];
    for (target, name) in all {
        assert_eq!(target.to_string(), name);
        assert_eq!(SingleStepTarget::from_str(name), Ok(target));
    }
    assert_eq!(
        SingleStepTarget::from_str("nopslide"),
        Err("not a valid victim program type".to_string())
    );
}

#[test]
fn requests_hold_what_they_are_given() {
    let req = PingPongPageTrackReq { access_type: AccessType::EXEC };
    assert_eq!(req.access_type, AccessType::EXEC);
    let resp = PingPongPageTrackInitResp { gpa1: 0x1000, gpa2: 0x2000, iterations: 10 };
    assert_eq!(resp.gpa1 + resp.gpa2, 0x3000);
    assert_eq!(resp.iterations, 10);
    let start = SingleStepVictimStartReq { victim_program: "NopSlide".to_string() };
    let init = SingleStepVictimInitReq { victim_program: start.victim_program.clone() };
    assert_eq!(init.victim_program, "NopSlide");
    let resp = SingleStepVictimInitResp {
        gpa: 0x1000,
        vaddr: 0x40_0000,
        expected_offsets: vec![0, 1, 2],
        has_cache_attack_data: false,
        offsets_with_mem_access: vec![],
        mem_access_target_offset: vec![],
        lookup_table_gpa: 0,
        lookup_table_vaddr: 0,
        lookup_table_bytes: 0,
    };
    assert_eq!(resp.expected_offsets.len(), 3);
    assert!(!resp.has_cache_attack_data);
}
