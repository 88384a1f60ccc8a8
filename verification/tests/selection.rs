use relay_pipeline::selection::{first_boundary, is_submittable, select_next};
use relay_pipeline::types::{same_hash, FinalizedHeader, Justification, SourceHeader, TargetChainState};

fn header(height: u64, set: u64) -> FinalizedHeader {
    let mut hash = [0u8; 32];
    hash[..8].copy_from_slice(&height.to_be_bytes());
    FinalizedHeader { height, hash, authority_set: set }
}

fn plain(height: u64, set: u64) -> SourceHeader {
    SourceHeader { header: header(height, set), has_justification: true, changes_authority_set: false }
}

fn unjustified(height: u64, set: u64) -> SourceHeader {
    SourceHeader { header: header(height, set), has_justification: false, changes_authority_set: false }
}

fn boundary(height: u64, set: u64) -> SourceHeader {
    SourceHeader { header: header(height, set), has_justification: true, changes_authority_set: true }
}

fn target(height: u64, set: u64) -> TargetChainState {
    TargetChainState { last_accepted: header(height, set), authority_set_id: set }
}

#[test]
fn skips_to_the_newest_header() {
    let cands = vec![plain(10, 1), plain(11, 1), plain(12, 1)];
    assert_eq!(select_next(&target(9, 1), &cands, 0), Some(2));
}

#[test]
fn nothing_to_select_from_an_empty_list() {
    let cands: Vec<SourceHeader> = Vec::new();
    assert_eq!(select_next(&target(9, 1), &cands, 0), None);
    assert_eq!(first_boundary(&target(9, 1), &cands), None);
}

#[test]
fn never_selects_at_or_below_the_accepted_height() {
    let cands = vec![plain(7, 1), plain(8, 1), plain(9, 1)];
    assert_eq!(select_next(&target(9, 1), &cands, 0), None);
    let cands = vec![plain(9, 1), plain(10, 1)];
    assert_eq!(select_next(&target(9, 1), &cands, 0), Some(1));
    let cands = vec![plain(u64::MAX, 1)];
    assert_eq!(select_next(&target(u64::MAX, 1), &cands, 0), None);
}

#[test]
fn a_header_without_justification_is_passed_over() {
    let cands = vec![plain(10, 1), plain(11, 1), unjustified(12, 1)];
    assert_eq!(select_next(&target(9, 1), &cands, 0), Some(1));
    let cands = vec![unjustified(10, 1), unjustified(11, 1)];
    assert_eq!(select_next(&target(9, 1), &cands, 0), None);
}

#[test]
fn the_boundary_goes_before_newer_headers() {
    let cands = vec![boundary(15, 3), plain(16, 4), plain(20, 4)];
    assert_eq!(select_next(&target(14, 3), &cands, 0), Some(0));
    // even where the proof of the newer header would be allowed to span the change
    assert_eq!(select_next(&target(14, 3), &cands, 1), Some(0));
}

#[test]
fn the_lowest_of_several_boundaries_goes_first() {
    let cands = vec![plain(11, 3), boundary(30, 4), plain(40, 5), boundary(20, 3), plain(25, 4)];
    assert_eq!(first_boundary(&target(10, 3), &cands), Some(20));
    assert_eq!(select_next(&target(10, 3), &cands, 0), Some(3));
}

#[test]
fn a_boundary_the_target_has_passed_bars_nothing() {
    let cands = vec![boundary(15, 3), plain(16, 4), plain(20, 4)];
    assert_eq!(first_boundary(&target(15, 4), &cands), None);
    assert_eq!(select_next(&target(15, 4), &cands, 0), Some(2));
}

#[test]
fn a_boundary_without_justification_bars_what_lies_behind_it() {
    let cands = vec![
        plain(11, 3),
        plain(13, 3),
        SourceHeader { header: header(15, 3), has_justification: false, changes_authority_set: true },
        plain(20, 4),
    ];
    assert_eq!(select_next(&target(10, 3), &cands, 5), Some(1));
    let cands = vec![
        SourceHeader { header: header(15, 3), has_justification: false, changes_authority_set: true },
        plain(20, 4),
    ];
    assert_eq!(select_next(&target(10, 3), &cands, 5), None);
}

#[test]
fn a_proof_spans_no_more_set_changes_than_allowed() {
    let cands = vec![plain(11, 3), plain(12, 4), plain(13, 5)];
    assert_eq!(select_next(&target(10, 3), &cands, 0), Some(0));
    assert_eq!(select_next(&target(10, 3), &cands, 1), Some(1));
    assert_eq!(select_next(&target(10, 3), &cands, 2), Some(2));
    assert_eq!(select_next(&target(10, 3), &cands, u32::MAX), Some(2));
}

#[test]
fn a_header_of_an_older_set_is_never_submittable() {
    let t = target(10, 3);
    assert!(!is_submittable(&t, &plain(11, 2), u32::MAX));
    assert!(is_submittable(&t, &plain(11, 3), 0));
    assert!(!is_submittable(&t, &plain(11, 4), 0));
    assert!(is_submittable(&t, &plain(11, 4), 1));
    assert!(!is_submittable(&t, &plain(10, 3), 0));
    assert!(!is_submittable(&t, &unjustified(11, 3), 0));
    let far = TargetChainState { last_accepted: header(10, 0), authority_set_id: 0 };
    assert!(!is_submittable(&far, &plain(11, u64::MAX), u32::MAX));
}

#[test]
fn the_order_of_the_list_does_not_matter() {
    let cands = vec![plain(12, 1), plain(10, 1), plain(11, 1)];
    assert_eq!(select_next(&target(9, 1), &cands, 0), Some(0));
    let cands = vec![plain(20, 4), boundary(15, 3)];
    assert_eq!(select_next(&target(14, 3), &cands, 0), Some(1));
}

#[test]
fn of_two_headers_at_one_height_the_first_is_taken() {
    let cands = vec![plain(10, 1), plain(12, 1), plain(12, 1)];
    assert_eq!(select_next(&target(9, 1), &cands, 0), Some(1));
}

#[test]
fn advance_moves_the_target_to_the_header() {
    let t = target(9, 1);
    let next = t.advance(&plain(12, 1));
    assert_eq!(next.last_accepted, header(12, 1));
    assert_eq!(next.authority_set_id, 1);
    let next = target(14, 3).advance(&boundary(15, 3));
    assert_eq!(next.last_accepted.height, 15);
    assert_eq!(next.authority_set_id, 4);
}

#[test]
fn advance_ignores_a_header_that_is_not_newer() {
    let t = target(12, 1);
    assert_eq!(t.advance(&plain(12, 1)), t);
    assert_eq!(t.advance(&plain(3, 0)), t);
}

#[test]
fn advance_twice_is_advance_once() {
    for h in [plain(12, 1), boundary(15, 1), plain(5, 1), boundary(9, 7)] {
        let t = target(9, 1);
        let once = t.advance(&h);
        assert_eq!(once.advance(&h), once);
    }
}

#[test]
fn advance_does_not_overflow_the_set_id() {
    let next = target(1, u64::MAX).advance(&boundary(2, u64::MAX));
    assert_eq!(next.authority_set_id, u64::MAX);
    assert_eq!(next.last_accepted.height, 2);
}

#[test]
fn a_justification_belongs_to_one_header() {
    let h = header(12, 3);
    let j = Justification { height: 12, hash: h.hash, authority_set: 3, votes: vec![1, 2, 3] };
    assert!(j.justifies(&h));
    assert!(!j.justifies(&header(13, 3)));
    assert!(!j.justifies(&header(12, 4)));
    let mut other = h;
    other.hash[31] = 1;
    assert!(!j.justifies(&other));
    assert!(same_hash(&h.hash, &h.hash));
    assert!(!same_hash(&h.hash, &other.hash));
    let mut first = h.hash;
    first[0] ^= 0x80;
    assert!(!same_hash(&h.hash, &first));
}

#[test]
fn a_header_is_observed_with_its_own_justification_only() {
    let h = header(12, 3);
    let j = Justification { height: 12, hash: h.hash, authority_set: 3, votes: vec![1, 2, 3] };
    let wrong = Justification { height: 11, hash: h.hash, authority_set: 3, votes: vec![1, 2, 3] };
    assert_eq!(SourceHeader::observed(h, Some(&j), false), plain(12, 3));
    assert_eq!(SourceHeader::observed(h, Some(&j), true), boundary(12, 3));
    assert_eq!(SourceHeader::observed(h, None, false), unjustified(12, 3));
    assert_eq!(SourceHeader::observed(h, Some(&wrong), false), unjustified(12, 3));
    // and a header observed without its justification is not selected
    let cands = vec![SourceHeader::observed(h, Some(&wrong), false)];
    assert_eq!(select_next(&target(9, 3), &cands, 0), None);
    let cands = vec![SourceHeader::observed(h, Some(&j), false)];
    assert_eq!(select_next(&target(9, 3), &cands, 0), Some(0));
}

#[test]
fn what_is_chosen_next_is_higher() {
    let cands = vec![plain(10, 1), plain(11, 1), plain(12, 1), plain(13, 1)];
    let t = target(9, 1);
    let first = select_next(&t, &cands, 0).unwrap();
    let t2 = t.advance(&cands[first]);
    let mut more = cands.clone();
    more.push(plain(14, 1));
    let second = select_next(&t2, &more, 0).unwrap();
    assert!(more[second].header.height > cands[first].header.height);
    assert_eq!(select_next(&t2, &cands, 0), None);
}
