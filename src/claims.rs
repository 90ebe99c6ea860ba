//! Arbitration of the claim window that follows a discard.

use vstd::prelude::*;

verus! {

/// Kinds of claim on a discard, highest priority first.
#[derive(Debug, Clone, Copy, PartialEq, Eq, Structural)]
pub enum ClaimKind {
    Hu,
    PengSao,
    Chi,
}

/// A claim made from a seat.
#[derive(Debug, Clone, Copy, PartialEq, Eq, Structural)]
pub struct Claim {
    pub seat: usize,
    pub kind: ClaimKind,
}

/// Priority of a claim kind: hu before peng/sao before chi (lower is higher).
pub open spec fn rank_of(k: ClaimKind) -> int {
    match k {
        ClaimKind::Hu => 0,
        ClaimKind::PengSao => 1,
        ClaimKind::Chi => 2,
    }
}

/// Seats clockwise from the discarder to `seat` (1 for the next seat).
pub open spec fn distance(discarder: int, seat: int, n: int) -> int {
    (seat - discarder + n) % n
}

/// A claim may stand: it comes from another seat at the table, and a chi only from
/// the seat next in turn.
pub open spec fn legal_claim(c: Claim, discarder: int, n: int) -> bool {
    &&& c.seat < n
    &&& c.seat != discarder
    &&& (c.kind == ClaimKind::Chi ==> distance(discarder, c.seat as int, n) == 1)
}

/// `a` wins over `b`: higher priority, or equal priority and nearer clockwise.
pub open spec fn beats(a: Claim, b: Claim, discarder: int, n: int) -> bool {
    rank_of(a.kind) < rank_of(b.kind) || (rank_of(a.kind) == rank_of(b.kind) && distance(
        discarder,
        a.seat as int,
        n,
    ) < distance(discarder, b.seat as int, n))
}

fn rank(k: ClaimKind) -> (r: u8)
    ensures
        r == rank_of(k),
{
    match k {
        ClaimKind::Hu => 0,
        ClaimKind::PengSao => 1,
        ClaimKind::Chi => 2,
    }
}

/// Picks the winning claim: the legal claim of highest priority, ties going to the
/// seat nearest clockwise from the discarder (earliest in the list among equals).
/// `None` when no claim is legal.
pub fn resolve_claims(discarder: usize, n: usize, claims: &Vec<Claim>) -> (r: Option<Claim>)
    requires
        discarder < n <= 4,
    ensures
        r.is_none() <==> forall|i: int| 0 <= i < claims@.len() ==> !legal_claim(#[trigger] claims@[i], discarder as int, n as int),
        match r {
            Some(w) => {
                &&& claims@.contains(w)
                &&& legal_claim(w, discarder as int, n as int)
                &&& forall|i: int| 0 <= i < claims@.len() && legal_claim(#[trigger] claims@[i], discarder as int, n as int)
                    ==> !beats(claims@[i], w, discarder as int, n as int)
            },
            None => true,
        },
{
    let mut best: Option<Claim> = None;
    let mut i: usize = 0;
    while i < claims.len()
        invariant
            i <= claims@.len(),
            discarder < n <= 4,
            best.is_none() <==> forall|k: int| 0 <= k < i ==> !legal_claim(#[trigger] claims@[k], discarder as int, n as int),
            match best {
                Some(w) => {
                    &&& exists|k: int| 0 <= k < i && claims@[k] == w
                    &&& legal_claim(w, discarder as int, n as int)
                    &&& forall|k: int| 0 <= k < i && legal_claim(#[trigger] claims@[k], discarder as int, n as int)
                        ==> !beats(claims@[k], w, discarder as int, n as int)
                },
                None => true,
            },
        decreases claims@.len() - i,
    {
        let c = claims[i];
        let legal = c.seat < n && c.seat != discarder && (c.kind != ClaimKind::Chi || (c.seat + n - discarder) % n == 1);
        assert(legal == legal_claim(c, discarder as int, n as int)) by {
            assert((c.seat + n - discarder) as int == c.seat - discarder + n);
        }
        if legal {
            match best {
                None => {
                    best = Some(c);
                },
                Some(w) => {
                    let dc = (c.seat + n - discarder) % n;
                    let dw = (w.seat + n - discarder) % n;
                    proof {
                        assert((c.seat + n - discarder) as int == c.seat - discarder + n);
                        assert((w.seat + n - discarder) as int == w.seat - discarder + n);
                    }
                    let rc = rank(c.kind);
                    let rw = rank(w.kind);
                    if rc < rw || (rc == rw && dc < dw) {
                        best = Some(c);
                        proof {
                            assert forall|k: int| 0 <= k < i + 1 && legal_claim(#[trigger] claims@[k], discarder as int, n as int)
                                implies !beats(claims@[k], c, discarder as int, n as int) by {
                                if k < i {
                                    assert(!beats(claims@[k], w, discarder as int, n as int));
                                }
                            }
                        }
                    }
                },
            }
        }
        proof {
            if best.is_some() {
                let w = best.unwrap();
                if w == c {
                    assert(claims@[i as int] == w);
                } else {
                    let k = choose|k: int| 0 <= k < i && claims@[k] == w;
                    assert(0 <= k < i + 1 && claims@[k] == w);
                }
            }
        }
        i = i + 1;
    }
    proof {
        if best.is_some() {
            let w = best.unwrap();
            let k = choose|k: int| 0 <= k < claims@.len() && claims@[k] == w;
            assert(claims@[k] == w);
        }
    }
    best
}

} // verus!
