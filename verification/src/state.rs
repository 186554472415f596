use vstd::prelude::*;

verus! {

/// Seconds a claimant must wait between two successful claims of the same
/// asset kind.
pub const COOLDOWN_SECONDS: u64 = 86400;

/// The two claimable asset kinds. They are tracked independently: each has
/// its own cooldown timestamp, cumulative counter and per-claim maximum,
/// and the two never share a counter.
#[derive(Clone, Copy, Debug, PartialEq, Eq, Structural)]
pub enum AssetKind {
    Qtum,
    Inj,
}

/// Faucet configuration: the owner identity, the address of the token
/// contract paying out the first kind, and the per-claim maxima. Replaced
/// only as a whole, and only by the owner.
pub struct Config {
    pub owner: String,
    pub qtum_addr: String,
    pub max_withdraw_qtum: u128,
    pub max_withdraw_inj: u128,
}

impl Config {
    /// The configured per-claim maximum for an asset kind.
    pub open spec fn max_claim(self, kind: AssetKind) -> u128 {
        match kind {
            AssetKind::Qtum => self.max_withdraw_qtum,
            AssetKind::Inj => self.max_withdraw_inj,
        }
    }
}

/// Global counters kept for observability. `total_testers` is never
/// incremented by any operation here; it exists in the persisted layout and
/// is reported by queries as stored.
#[derive(Clone, Copy, Debug, PartialEq, Eq, Structural)]
pub struct State {
    pub total_testers: u64,
    pub total_qtum_claimed: u128,
    pub total_inj_claimed: u128,
}

impl State {
    /// The cumulative amount successfully claimed of an asset kind, over
    /// all identities.
    pub open spec fn total_claimed(self, kind: AssetKind) -> u128 {
        match kind {
            AssetKind::Qtum => self.total_qtum_claimed,
            AssetKind::Inj => self.total_inj_claimed,
        }
    }
}

/// Per-identity claim record: cumulative claimed amounts and the timestamps
/// of the last successful claim, kept separately for each asset kind.
#[derive(Clone, Copy, Debug, PartialEq, Eq, Structural)]
pub struct TesterInfo {
    pub claimed_qutm_amount: u128,
    pub claimed_inj_amount: u128,
    pub last_qtum_claimed: u64,
    pub last_inj_claimed: u64,
}

impl TesterInfo {
    /// The record an identity that has never claimed reads as.
    pub open spec fn zero() -> TesterInfo {
        TesterInfo {
            claimed_qutm_amount: 0,
            claimed_inj_amount: 0,
            last_qtum_claimed: 0,
            last_inj_claimed: 0,
        }
    }

    /// The cumulative amount this identity has claimed of an asset kind.
    pub open spec fn claimed_amount(self, kind: AssetKind) -> u128 {
        match kind {
            AssetKind::Qtum => self.claimed_qutm_amount,
            AssetKind::Inj => self.claimed_inj_amount,
        }
    }

    /// The time of this identity's last successful claim of an asset kind
    /// (zero if it never claimed that kind).
    pub open spec fn last_claimed(self, kind: AssetKind) -> u64 {
        match kind {
            AssetKind::Qtum => self.last_qtum_claimed,
            AssetKind::Inj => self.last_inj_claimed,
        }
    }
}

/// The map described by a sequence of identity/record pairs: a later entry
/// for the same identity wins.
pub open spec fn ledger_map(s: Seq<(String, TesterInfo)>) -> Map<Seq<char>, TesterInfo>
    decreases s.len(),
{
    if s.len() == 0 {
        Map::empty()
    } else {
        ledger_map(s.drop_last()).insert(s.last().0@, s.last().1)
    }
}

/// The claim ledger: one `TesterInfo` record per identity, viewed as a map
/// from identity to record. Entries carry each identity at most once (see
/// `wf`), so a linear lookup agrees with the map view.
pub struct Ledger {
    entries: Vec<(String, TesterInfo)>,
}

impl View for Ledger {
    type V = Map<Seq<char>, TesterInfo>;

    closed spec fn view(&self) -> Map<Seq<char>, TesterInfo> {
        ledger_map(self.entries@)
    }
}

impl Ledger {
    /// Each identity appears at most once among the entries.
    pub closed spec fn wf(&self) -> bool {
        forall|i: int, j: int|
            0 <= i < j < self.entries@.len() ==> self.entries@[i].0@ != self.entries@[j].0@
    }

    /// An empty ledger: no identity has a record.
    pub fn new() -> (r: Ledger)
        ensures
            r@ == Map::<Seq<char>, TesterInfo>::empty(),
            r.wf(),
    {
        Ledger { entries: Vec::new() }
    }
}

/// A key of the ledger map is exactly the identity of some entry.
proof fn lemma_ledger_map_domain(s: Seq<(String, TesterInfo)>)
    ensures
        forall|k: Seq<char>|
            ledger_map(s).contains_key(k) <==> exists|i: int|
                0 <= i < s.len() && #[trigger] s[i].0@ == k,
    decreases s.len(),
{
    if s.len() == 0 {
    } else {
        let prefix = s.drop_last();
        lemma_ledger_map_domain(prefix);
        assert forall|k: Seq<char>| ledger_map(s).contains_key(k) implies exists|i: int|
            0 <= i < s.len() && #[trigger] s[i].0@ == k by {
            if k == s.last().0@ {
                assert(s[s.len() - 1].0@ == k);
            } else {
                assert(ledger_map(s) == ledger_map(prefix).insert(s.last().0@, s.last().1));
                assert(ledger_map(prefix).contains_key(k));
                let i = choose|i: int| 0 <= i < prefix.len() && #[trigger] prefix[i].0@ == k;
                assert(s[i].0@ == k);
            }
        }
        assert forall|k: Seq<char>|
            (exists|i: int| 0 <= i < s.len() && #[trigger] s[i].0@ == k) implies ledger_map(
            s,
        ).contains_key(k) by {
            let i = choose|i: int| 0 <= i < s.len() && #[trigger] s[i].0@ == k;
            if i < s.len() - 1 {
                assert(prefix[i].0@ == k);
            }
        }
    }
}

/// With unique identities, the ledger map sends each entry's identity to
/// that entry's record.
proof fn lemma_ledger_map_index(s: Seq<(String, TesterInfo)>, i: int)
    requires
        0 <= i < s.len(),
        forall|p: int, q: int| 0 <= p < q < s.len() ==> s[p].0@ != s[q].0@,
    ensures
        ledger_map(s).contains_key(s[i].0@),
        ledger_map(s)[s[i].0@] == s[i].1,
    decreases s.len(),
{
    if i == s.len() - 1 {
    } else {
        let prefix = s.drop_last();
        assert(prefix[i] == s[i]);
        lemma_ledger_map_index(prefix, i);
        assert(s[i].0@ != s[s.len() - 1].0@);
    }
}

/// With unique identities, removing an entry removes exactly its identity
/// from the ledger map.
proof fn lemma_ledger_map_remove(s: Seq<(String, TesterInfo)>, i: int)
    requires
        0 <= i < s.len(),
        forall|p: int, q: int| 0 <= p < q < s.len() ==> s[p].0@ != s[q].0@,
    ensures
        ledger_map(s.remove(i)) =~= ledger_map(s).remove(s[i].0@),
    decreases s.len(),
{
    s.remove_ensures(i);
    if i == s.len() - 1 {
        assert(s.remove(i) =~= s.drop_last());
        lemma_ledger_map_domain(s.drop_last());
        assert forall|k: Seq<char>| ledger_map(s.drop_last()).contains_key(k) implies k != s[i].0@ by {
            let j = choose|j: int|
                0 <= j < s.drop_last().len() && #[trigger] s.drop_last()[j].0@ == k;
            assert(s[j].0@ == k);
        }
        assert(ledger_map(s.drop_last()) =~= ledger_map(s).remove(s[i].0@));
    } else {
        let prefix = s.drop_last();
        lemma_ledger_map_remove(prefix, i);
        assert(prefix[i] == s[i]);
        assert(s.remove(i).drop_last() =~= prefix.remove(i));
        assert(s.remove(i).last() == s.last());
        assert(s[i].0@ != s.last().0@);
        assert(ledger_map(s.remove(i)) == ledger_map(prefix.remove(i)).insert(
            s.last().0@,
            s.last().1,
        ));
        assert(ledger_map(prefix).remove(s[i].0@).insert(s.last().0@, s.last().1) =~= ledger_map(
            prefix,
        ).insert(s.last().0@, s.last().1).remove(s[i].0@));
    }
}

/// Looks up the record of `sender`; an identity never stored reads as the
/// all-zero record. Read-only: the ledger is not touched.
pub fn tester_info(ledger: &Ledger, sender: &String) -> (r: TesterInfo)
    requires
        ledger.wf(),
    ensures
        ledger@.contains_key(sender@) ==> r == ledger@[sender@],
        !ledger@.contains_key(sender@) ==> r == TesterInfo::zero(),
{
    let n: usize = ledger.entries.len();
    let mut idx: usize = 0;
    while idx < n
        invariant
            n == ledger.entries@.len(),
            idx <= n,
            forall|j: int| 0 <= j < idx ==> ledger.entries@[j].0@ != sender@,
            ledger.wf(),
        decreases n - idx,
    {
        if ledger.entries[idx].0 == *sender {
            proof {
                lemma_ledger_map_index(ledger.entries@, idx as int);
            }
            return ledger.entries[idx].1;
        }
        idx += 1;
    }
    proof {
        lemma_ledger_map_domain(ledger.entries@);
    }
    TesterInfo { claimed_qutm_amount: 0, claimed_inj_amount: 0, last_qtum_claimed: 0, last_inj_claimed: 0 }
}

/// Deletes the record of `owner` from the ledger, if it has one.
pub fn remove_test_user(ledger: &mut Ledger, owner: &String)
    requires
        old(ledger).wf(),
    ensures
        final(ledger).wf(),
        final(ledger)@ == old(ledger)@.remove(owner@),
{
    let n: usize = ledger.entries.len();
    let mut idx: usize = 0;
    while idx < n
        invariant
            n == ledger.entries@.len(),
            idx <= n,
            forall|j: int| 0 <= j < idx ==> ledger.entries@[j].0@ != owner@,
            ledger.wf(),
            *ledger == *old(ledger),
        decreases n - idx,
    {
        if ledger.entries[idx].0 == *owner {
            proof {
                lemma_ledger_map_remove(ledger.entries@, idx as int);
                ledger.entries@.remove_ensures(idx as int);
            }
            let ghost pre = ledger.entries@;
            ledger.entries.remove(idx);
            proof {
                assert forall|p: int, q: int|
                    0 <= p < q < ledger.entries@.len() implies ledger.entries@[p].0@
                    != ledger.entries@[q].0@ by {
                    if q < idx {
                        assert(ledger.entries@[p] == pre[p]);
                        assert(ledger.entries@[q] == pre[q]);
                    } else if p < idx {
                        assert(ledger.entries@[p] == pre[p]);
                        assert(ledger.entries@[q] == pre[q + 1]);
                    } else {
                        assert(ledger.entries@[p] == pre[p + 1]);
                        assert(ledger.entries@[q] == pre[q + 1]);
                    }
                }
            }
            return;
        }
        idx += 1;
    }
    proof {
        lemma_ledger_map_domain(ledger.entries@);
        assert(ledger@ =~= ledger@.remove(owner@));
    }
}

/// Writes `info` as the record of `owner`, replacing any previous record of
/// that identity and touching no other identity's record.
pub fn store_test_user(ledger: &mut Ledger, owner: &String, info: &TesterInfo)
    requires
        old(ledger).wf(),
    ensures
        final(ledger).wf(),
        final(ledger)@ == old(ledger)@.insert(owner@, *info),
{
    remove_test_user(ledger, owner);
    proof {
        lemma_ledger_map_domain(ledger.entries@);
    }
    let ghost pre = ledger.entries@;
    ledger.entries.push((owner.clone(), *info));
    proof {
        assert(ledger.entries@.drop_last() =~= pre);
        assert(ledger.entries@.last().0@ == owner@);
        assert(ledger@ == ledger_map(pre).insert(owner@, *info));
        assert(old(ledger)@.remove(owner@).insert(owner@, *info) =~= old(ledger)@.insert(
            owner@,
            *info,
        ));
        assert forall|p: int, q: int|
            0 <= p < q < ledger.entries@.len() implies ledger.entries@[p].0@
            != ledger.entries@[q].0@ by {
            if q == ledger.entries@.len() - 1 {
                assert(ledger.entries@[p] == pre[p]);
                assert(!ledger_map(pre).contains_key(owner@));
                if pre[p].0@ == owner@ {
                    assert(ledger_map(pre).contains_key(owner@));
                }
            } else {
                assert(ledger.entries@[p] == pre[p]);
                assert(ledger.entries@[q] == pre[q]);
            }
        }
    }
}

} // verus!
