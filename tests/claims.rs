use guilin_paizi::claims::{resolve_claims, Claim, ClaimKind};

#[test]
fn hu_beats_peng_and_chi() {
    let claims = vec![
        Claim { seat: 1, kind: ClaimKind::Chi },
        Claim { seat: 2, kind: ClaimKind::PengSao },
        Claim { seat: 3, kind: ClaimKind::Hu },
    ];
    assert_eq!(resolve_claims(0, 4, &claims), Some(Claim { seat: 3, kind: ClaimKind::Hu }));
}

#[test]
fn nearest_clockwise_hu_wins() {
    let claims = vec![Claim { seat: 1, kind: ClaimKind::Hu }, Claim { seat: 3, kind: ClaimKind::Hu }];
    // Discarder at seat 2: seat 3 is one step away, seat 1 three steps.
    assert_eq!(resolve_claims(2, 4, &claims), Some(Claim { seat: 3, kind: ClaimKind::Hu }));
}

#[test]
fn illegal_claims_are_ignored() {
    let claims = vec![
        Claim { seat: 2, kind: ClaimKind::Chi },
        Claim { seat: 0, kind: ClaimKind::Hu },
        Claim { seat: 7, kind: ClaimKind::PengSao },
    ];
    assert_eq!(resolve_claims(0, 4, &claims), None);
    let chi = vec![Claim { seat: 1, kind: ClaimKind::Chi }];
    assert_eq!(resolve_claims(0, 4, &chi), Some(Claim { seat: 1, kind: ClaimKind::Chi }));
    assert_eq!(resolve_claims(0, 2, &vec![]), None);
}
