use vstd::prelude::*;

verus! {

/// A current vote account's node identity and the credit counter of its latest
/// epoch, at the end and at the start of that epoch.
#[derive(Clone, Debug)]
pub struct VoteAccountCredits {
    pub node_pubkey: String,
    pub credits: u64,
    pub previous_credits: u64,
}

/// Credits earned in this epoch.
pub open spec fn earned(a: VoteAccountCredits) -> int {
    a.credits - a.previous_credits
}

/// Account `j` comes before account `i` when the accounts are sorted by earned
/// credits, highest first, ties kept in list order.
pub open spec fn ranks_before(acc: Seq<VoteAccountCredits>, j: int, i: int) -> bool {
    earned(acc[j]) > earned(acc[i]) || (earned(acc[j]) == earned(acc[i]) && j < i)
}

/// How many of the first `n` accounts come before account `i`.
pub open spec fn count_before(acc: Seq<VoteAccountCredits>, i: int, n: int) -> int
    decreases n,
{
    if n <= 0 {
        0
    } else {
        count_before(acc, i, n - 1) + if ranks_before(acc, n - 1, i) { 1int } else { 0int }
    }
}

/// The 1-based position of account `i` in that sorted order.
pub open spec fn place_of(acc: Seq<VoteAccountCredits>, i: int) -> int {
    1 + count_before(acc, i, acc.len() as int)
}

proof fn lemma_count_bounded(acc: Seq<VoteAccountCredits>, i: int, n: int)
    requires
        0 <= i < acc.len(),
        0 <= n <= acc.len(),
    ensures
        0 <= count_before(acc, i, n) <= n,
        n > i ==> count_before(acc, i, n) <= n - 1,
    decreases n,
{
    if n > 0 {
        lemma_count_bounded(acc, i, n - 1);
    }
}

fn place(acc: &Vec<VoteAccountCredits>, i: usize) -> (r: usize)
    requires
        i < acc@.len(),
        forall|k: int| 0 <= k < acc@.len() ==> acc@[k].previous_credits <= #[trigger] acc@[k].credits,
    ensures
        r == place_of(acc@, i as int),
{
    let mine = acc[i].credits - acc[i].previous_credits;
    let mut count: usize = 0;
    let mut j: usize = 0;
    while j < acc.len()
        invariant
            i < acc@.len(),
            j <= acc@.len(),
            forall|k: int| 0 <= k < acc@.len() ==> acc@[k].previous_credits <= #[trigger] acc@[k].credits,
            mine == earned(acc@[i as int]),
            count == count_before(acc@, i as int, j as int),
        decreases acc@.len() - j,
    {
        proof {
            lemma_count_bounded(acc@, i as int, j + 1);
        }
        let theirs = acc[j].credits - acc[j].previous_credits;
        if theirs > mine || (theirs == mine && j < i) {
            count = count + 1;
        }
        j = j + 1;
    }
    proof {
        lemma_count_bounded(acc@, i as int, acc@.len() as int);
    }
    count + 1
}

/// Ranks the accounts by credits earned this epoch, highest first and ties in
/// list order, and returns the 1-based place of the first account of
/// `identity` in that order with the credits it earned; (0, 0) when no account
/// belongs to `identity`.
pub fn credits_and_place(acc: &Vec<VoteAccountCredits>, identity: &String) -> (r: (usize, u64))
    requires
        forall|k: int| 0 <= k < acc@.len() ==> acc@[k].previous_credits <= #[trigger] acc@[k].credits,
    ensures
        (forall|k: int| 0 <= k < acc@.len() ==> acc@[k].node_pubkey@ != identity@) ==> r == (
        0usize, 0u64),
        (exists|k: int| 0 <= k < acc@.len() && acc@[k].node_pubkey@ == identity@) ==> exists|k: int|
            {
                &&& 0 <= k < acc@.len()
                &&& acc@[k].node_pubkey@ == identity@
                &&& r.0 == place_of(acc@, k)
                &&& r.1 == earned(acc@[k])
                &&& forall|j: int|
                    0 <= j < acc@.len() && acc@[j].node_pubkey@ == identity@ ==> place_of(acc@, k)
                        <= place_of(acc@, j)
            },
{
    let mut best: Option<(usize, u64)> = None;
    let ghost mut best_k: int = 0;
    let mut i: usize = 0;
    while i < acc.len()
        invariant
            i <= acc@.len(),
            forall|k: int| 0 <= k < acc@.len() ==> acc@[k].previous_credits <= #[trigger] acc@[k].credits,
            best is None ==> forall|k: int| 0 <= k < i ==> acc@[k].node_pubkey@ != identity@,
            best matches Some(b) ==> {
                &&& 0 <= best_k < i
                &&& acc@[best_k].node_pubkey@ == identity@
                &&& b.0 == place_of(acc@, best_k)
                &&& b.1 == earned(acc@[best_k])
                &&& forall|j: int|
                    0 <= j < i && acc@[j].node_pubkey@ == identity@ ==> place_of(acc@, best_k)
                        <= place_of(acc@, j)
            },
        decreases acc@.len() - i,
    {
        if acc[i].node_pubkey == *identity {
            let p = place(acc, i);
            let better = match best {
                None => true,
                Some(b) => p < b.0,
            };
            if better {
                best = Some((p, acc[i].credits - acc[i].previous_credits));
                proof {
                    best_k = i as int;
                }
            }
        }
        i = i + 1;
    }
    match best {
        None => (0, 0),
        Some(b) => b,
    }
}

} // verus!
