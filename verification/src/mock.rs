//! The deterministic in-memory adapter: stable synthetic zones derived from
//! the account name, lazily seeded records per zone, and mutations that never
//! perform I/O and never fail.
use vstd::prelude::*;
use crate::backend::{BackendError, BackendOp, DnsBackend};
use crate::model::{
    clone_records, record_views, zone_views, Account, AccountView, DnsRecord, RecordView, Zone,
    ZoneView,
};
use crate::text::{dec_rep, lower_char, lower_char_exec, push_char, str_eq, usize_to_string};

verus! {

/// The account name with spaces removed and ASCII upper case folded away;
/// the stable stem of this adapter's synthetic zone names.
pub open spec fn normalized_label(s: Seq<char>) -> Seq<char>
    decreases s.len(),
{
    if s.len() == 0 {
        Seq::empty()
    } else {
        let rest = normalized_label(s.drop_last());
        if s.last() == ' ' {
            rest
        } else {
            rest.push(lower_char(s.last()))
        }
    }
}

fn normalized_label_exec(s: &str) -> (r: String)
    ensures
        r@ == normalized_label(s@),
{
    let n = s.unicode_len();
    let mut out = String::new();
    let mut i: usize = 0;
    while i < n
        invariant
            0 <= i <= n,
            n == s@.len(),
            out@ == normalized_label(s@.subrange(0, i as int)),
        decreases n - i,
    {
        let c = s.get_char(i);
        proof {
            let p = s@.subrange(0, (i + 1) as int);
            assert(p.drop_last() =~= s@.subrange(0, i as int));
            assert(p.last() == s@[i as int]);
        }
        if c != ' ' {
            push_char(&mut out, lower_char_exec(c));
        }
        i = i + 1;
    }
    proof {
        assert(s@.subrange(0, n as int) =~= s@);
    }
    out
}

/// The two synthetic zones generated for an account.
pub open spec fn mock_zone_views(account_name: Seq<char>) -> Seq<ZoneView> {
    let base = normalized_label(account_name);
    seq![
        ZoneView { id: base + "-01"@, name: base + ".example.com"@ },
        ZoneView { id: base + "-02"@, name: base + ".services.io"@ },
    ]
}

/// The three records seeded on first access to a zone: an address entry, an
/// alias entry, and a mail-exchange entry.
pub open spec fn seeded_records(z: ZoneView) -> Seq<RecordView> {
    seq![
        RecordView {
            id: z.id + "-a"@,
            name: "api."@ + z.name,
            record_type: "A"@,
            content: "203.0.113.10"@,
            ttl: 300,
            proxied: true,
        },
        RecordView {
            id: z.id + "-b"@,
            name: "cdn."@ + z.name,
            record_type: "CNAME"@,
            content: "edge.service.net"@,
            ttl: 120,
            proxied: true,
        },
        RecordView {
            id: z.id + "-c"@,
            name: "mail."@ + z.name,
            record_type: "MX"@,
            content: "mail."@ + z.name,
            ttl: 3600,
            proxied: false,
        },
    ]
}

/// The records this adapter holds for one zone, keyed by the zone id.
pub struct ZoneStore {
    pub zone_id: String,
    pub records: Vec<DnsRecord>,
}

/// Ghost-level image of a `ZoneStore`.
pub struct ZoneStoreView {
    pub zone_id: Seq<char>,
    pub records: Seq<RecordView>,
}

impl View for ZoneStore {
    type V = ZoneStoreView;

    open spec fn view(&self) -> ZoneStoreView {
        ZoneStoreView { zone_id: self.zone_id@, records: record_views(self.records@) }
    }
}

/// Index of the first store keyed by `zid`, or the length if there is none.
pub open spec fn find_store(stores: Seq<ZoneStore>, zid: Seq<char>) -> int
    decreases stores.len(),
{
    if stores.len() == 0 {
        0
    } else if stores[0]@.zone_id == zid {
        0
    } else {
        1 + find_store(stores.drop_first(), zid)
    }
}

pub proof fn lemma_find_store_props(stores: Seq<ZoneStore>, zid: Seq<char>)
    ensures
        0 <= find_store(stores, zid) <= stores.len(),
        forall|j: int| 0 <= j < find_store(stores, zid) ==> (#[trigger] stores[j])@.zone_id != zid,
        find_store(stores, zid) < stores.len() ==> stores[find_store(stores, zid)]@.zone_id == zid,
    decreases stores.len(),
{
    if stores.len() > 0 && stores[0]@.zone_id != zid {
        let rest = stores.drop_first();
        lemma_find_store_props(rest, zid);
        assert forall|j: int|
            0 <= j < find_store(stores, zid) implies (#[trigger] stores[j])@.zone_id != zid by {
            if j > 0 {
                assert(stores[j] == rest[j - 1]);
            }
        };
    }
}

/// Index of the first record with id `id`, or the length if there is none.
pub open spec fn find_record(recs: Seq<RecordView>, id: Seq<char>) -> int
    decreases recs.len(),
{
    if recs.len() == 0 {
        0
    } else if recs[0].id == id {
        0
    } else {
        1 + find_record(recs.drop_first(), id)
    }
}

pub proof fn lemma_find_record_props(recs: Seq<RecordView>, id: Seq<char>)
    ensures
        0 <= find_record(recs, id) <= recs.len(),
        forall|j: int| 0 <= j < find_record(recs, id) ==> (#[trigger] recs[j]).id != id,
        find_record(recs, id) < recs.len() ==> recs[find_record(recs, id)].id == id,
    decreases recs.len(),
{
    if recs.len() > 0 && recs[0].id != id {
        let rest = recs.drop_first();
        lemma_find_record_props(rest, id);
        assert forall|j: int|
            0 <= j < find_record(recs, id) implies (#[trigger] recs[j]).id != id by {
            if j > 0 {
                assert(recs[j] == rest[j - 1]);
            }
        };
    }
}

/// The in-memory adapter's state: one store per zone touched so far, and the
/// ghost trace of calls.
pub struct MockBackend {
    pub records: Vec<ZoneStore>,
    pub trace: Ghost<Seq<BackendOp>>,
}

impl MockBackend {
    /// A fresh adapter holding no zone data.
    pub fn new() -> (r: Self)
        ensures
            r.records@.len() == 0,
            r.log() == Seq::<BackendOp>::empty(),
    {
        MockBackend { records: Vec::new(), trace: Ghost(Seq::empty()) }
    }

    fn find_index(&self, zid: &str) -> (r: usize)
        ensures
            r == find_store(self.records@, zid@),
    {
        let n = self.records.len();
        let mut i: usize = 0;
        while i < n
            invariant
                0 <= i <= n,
                n == self.records@.len(),
                forall|j: int| 0 <= j < i ==> (#[trigger] self.records@[j])@.zone_id != zid@,
            decreases n - i,
        {
            if str_eq(self.records[i].zone_id.as_str(), zid) {
                proof {
                    lemma_find_store_props(self.records@, zid@);
                    let f = find_store(self.records@, zid@);
                    if f < i {
                        assert(self.records@[f]@.zone_id == zid@);
                        assert(false);
                    }
                    if f > i {
                        assert(self.records@[i as int]@.zone_id != zid@);
                        assert(false);
                    }
                }
                return i;
            }
            i = i + 1;
        }
        proof {
            lemma_find_store_props(self.records@, zid@);
            let f = find_store(self.records@, zid@);
            if f < n {
                assert(self.records@[f]@.zone_id == zid@);
                assert(false);
            }
        }
        n
    }

    /// Seed a zone's records on first access; later accesses leave the store
    /// as it is.
    pub fn ensure_zone(&mut self, zone: &Zone)
        ensures
            stores_ensured(old(self).records@, final(self).records@, zone@),
            final(self).trace == old(self).trace,
    {
        let idx = self.find_index(zone.id.as_str());
        proof {
            lemma_find_store_props(self.records@, zone@.id);
        }
        if idx == self.records.len() {
            let mut recs: Vec<DnsRecord> = Vec::new();
            recs.push(
                DnsRecord {
                    id: zone.id.clone().concat("-a"),
                    name: "api.".to_owned().concat(zone.name.as_str()),
                    record_type: "A".to_owned(),
                    content: "203.0.113.10".to_owned(),
                    ttl: 300,
                    proxied: true,
                },
            );
            recs.push(
                DnsRecord {
                    id: zone.id.clone().concat("-b"),
                    name: "cdn.".to_owned().concat(zone.name.as_str()),
                    record_type: "CNAME".to_owned(),
                    content: "edge.service.net".to_owned(),
                    ttl: 120,
                    proxied: true,
                },
            );
            recs.push(
                DnsRecord {
                    id: zone.id.clone().concat("-c"),
                    name: "mail.".to_owned().concat(zone.name.as_str()),
                    record_type: "MX".to_owned(),
                    content: "mail.".to_owned().concat(zone.name.as_str()),
                    ttl: 3600,
                    proxied: false,
                },
            );
            let store = ZoneStore { zone_id: zone.id.clone(), records: recs };
            proof {
                assert(store@.records =~= seeded_records(zone@));
            }
            self.records.push(store);
            proof {
                assert(self.records@.subrange(0, old(self).records@.len() as int) =~= old(
                    self,
                ).records@);
            }
        }
    }
}

/// How `ensure_zone` relates the stores before and after: an untouched list
/// when the zone was present, otherwise the same list with a freshly seeded
/// store at the end.
pub open spec fn stores_ensured(pre: Seq<ZoneStore>, post: Seq<ZoneStore>, zone: ZoneView) -> bool {
    let f = find_store(pre, zone.id);
    if f < pre.len() {
        post == pre
    } else {
        post.len() == pre.len() + 1 && post.subrange(0, pre.len() as int) == pre && post.last()@
            == (ZoneStoreView { zone_id: zone.id, records: seeded_records(zone) })
    }
}

impl DnsBackend for MockBackend {
    open spec fn log(&self) -> Seq<BackendOp> {
        self.trace@
    }

    /// Two stable zones derived from the normalized account name; the stored
    /// records are untouched.
    open spec fn list_zones_post(
        pre: Self,
        post: Self,
        account: AccountView,
        r: Result<Vec<Zone>, BackendError>,
    ) -> bool {
        &&& post.records == pre.records
        &&& match r {
            Ok(zs) => zone_views(zs@) == mock_zone_views(account.name),
            Err(_) => false,
        }
    }

    /// The zone is seeded if it was never seen, and the call returns exactly
    /// the records then stored for it.
    open spec fn list_records_post(
        pre: Self,
        post: Self,
        account: AccountView,
        zone: ZoneView,
        r: Result<Vec<DnsRecord>, BackendError>,
    ) -> bool {
        let stores = pre.records@;
        let f = find_store(stores, zone.id);
        &&& stores_ensured(stores, post.records@, zone)
        &&& match r {
            Ok(v) => record_views(v@) == (if f < stores.len() {
                stores[f]@.records
            } else {
                seeded_records(zone)
            }),
            Err(_) => false,
        }
    }

    /// The record is appended to the zone's store (seeding it first if
    /// needed); its stored id is the zone id extended with the new record
    /// count.
    open spec fn create_record_post(
        pre: Self,
        post: Self,
        account: AccountView,
        zone: ZoneView,
        record: RecordView,
        r: Result<DnsRecord, BackendError>,
    ) -> bool {
        let stores = pre.records@;
        let f = find_store(stores, zone.id);
        let prior = if f < stores.len() {
            stores[f]@.records
        } else {
            seeded_records(zone)
        };
        let stored = RecordView { id: zone.id + "-"@ + dec_rep(prior.len() as int + 1), ..record };
        &&& if f < stores.len() {
            post.records@.len() == stores.len() && (forall|j: int|
                0 <= j < stores.len() && j != f ==> post.records@[j] == #[trigger] stores[j])
                && post.records@[f]@ == (ZoneStoreView {
                zone_id: stores[f]@.zone_id,
                records: prior.push(stored),
            })
        } else {
            post.records@.len() == stores.len() + 1 && post.records@.subrange(
                0,
                stores.len() as int,
            ) == stores && post.records@.last()@ == (ZoneStoreView {
                zone_id: zone.id,
                records: prior.push(stored),
            })
        }
        &&& match r {
            Ok(rec) => rec@ == stored,
            Err(_) => false,
        }
    }

    /// The first record with a matching id is replaced in place; a missing id
    /// leaves the store unchanged; the input record is echoed back either way.
    open spec fn update_record_post(
        pre: Self,
        post: Self,
        account: AccountView,
        zone: ZoneView,
        record: RecordView,
        r: Result<DnsRecord, BackendError>,
    ) -> bool {
        let stores = pre.records@;
        let f = find_store(stores, zone.id);
        let prior = if f < stores.len() {
            stores[f]@.records
        } else {
            seeded_records(zone)
        };
        let g = find_record(prior, record.id);
        let updated = if g < prior.len() {
            prior.update(g, record)
        } else {
            prior
        };
        &&& if f < stores.len() {
            post.records@.len() == stores.len() && (forall|j: int|
                0 <= j < stores.len() && j != f ==> post.records@[j] == #[trigger] stores[j])
                && post.records@[f]@ == (ZoneStoreView {
                zone_id: stores[f]@.zone_id,
                records: updated,
            })
        } else {
            post.records@.len() == stores.len() + 1 && post.records@.subrange(
                0,
                stores.len() as int,
            ) == stores && post.records@.last()@ == (ZoneStoreView {
                zone_id: zone.id,
                records: updated,
            })
        }
        &&& match r {
            Ok(rec) => rec@ == record,
            Err(_) => false,
        }
    }

    /// Every record with the given id is removed from the zone's store; an
    /// unknown zone or id is a quiet no-op.
    open spec fn delete_record_post(
        pre: Self,
        post: Self,
        account: AccountView,
        zone: ZoneView,
        record_id: Seq<char>,
        r: Result<(), BackendError>,
    ) -> bool {
        let stores = pre.records@;
        let f = find_store(stores, zone.id);
        &&& if f < stores.len() {
            post.records@.len() == stores.len() && (forall|j: int|
                0 <= j < stores.len() && j != f ==> post.records@[j] == #[trigger] stores[j])
                && post.records@[f]@ == (ZoneStoreView {
                zone_id: stores[f]@.zone_id,
                records: stores[f]@.records.filter(|rv: RecordView| rv.id != record_id),
            })
        } else {
            post.records@ == stores
        }
        &&& r is Ok
    }

    fn list_zones(&mut self, account: &Account) -> (r: Result<Vec<Zone>, BackendError>) {
        let base = normalized_label_exec(account.name.as_str());
        let z1 = Zone { id: base.clone().concat("-01"), name: base.clone().concat(".example.com") };
        let z2 = Zone { id: base.clone().concat("-02"), name: base.concat(".services.io") };
        let mut zones: Vec<Zone> = Vec::new();
        zones.push(z1);
        zones.push(z2);
        self.trace = Ghost(self.trace@.push(BackendOp::Zones));
        proof {
            assert(zone_views(zones@) =~= mock_zone_views(account@.name));
        }
        Ok(zones)
    }

    fn list_records(&mut self, account: &Account, zone: &Zone) -> (r: Result<
        Vec<DnsRecord>,
        BackendError,
    >) {
        let ghost pre = self.records@;
        self.ensure_zone(zone);
        let idx = self.find_index(zone.id.as_str());
        proof {
            lemma_find_store_props(pre, zone@.id);
            lemma_find_store_props(self.records@, zone@.id);
            if find_store(self.records@, zone@.id) >= self.records@.len() {
                assert(self.records@.last()@.zone_id == zone@.id);
                assert(false);
            }
            let f = find_store(pre, zone@.id);
            if f < pre.len() {
                assert(idx == f);
            } else {
                if idx < pre.len() {
                    assert(pre[idx as int]@.zone_id != zone@.id);
                    assert(self.records@[idx as int] == pre[idx as int]);
                    assert(false);
                }
            }
        }
        let out = clone_records(&self.records[idx].records);
        self.trace = Ghost(self.trace@.push(BackendOp::Records));
        Ok(out)
    }

    fn create_record(&mut self, account: &Account, zone: &Zone, record: DnsRecord) -> (r: Result<
        DnsRecord,
        BackendError,
    >) {
        let ghost pre = self.records@;
        self.ensure_zone(zone);
        let idx = self.find_index(zone.id.as_str());
        proof {
            lemma_find_store_props(pre, zone@.id);
            lemma_find_store_props(self.records@, zone@.id);
            if find_store(self.records@, zone@.id) >= self.records@.len() {
                assert(self.records@.last()@.zone_id == zone@.id);
                assert(false);
            }
            let f = find_store(pre, zone@.id);
            if f < pre.len() {
                assert(idx == f);
            } else {
                if idx < pre.len() {
                    assert(pre[idx as int]@.zone_id != zone@.id);
                    assert(self.records@[idx as int] == pre[idx as int]);
                    assert(false);
                }
            }
        }
        let mut new_record = record;
        let ghost mid = self.records@;
        let st = &mut self.records[idx];
        let ghost prior = st@.records;
        st.records.push(new_record.clone());
        let count = st.records.len();
        let num = usize_to_string(count);
        new_record.id = zone.id.clone().concat("-").concat(num.as_str());
        let last = count - 1;
        st.records.set(last, new_record.clone());
        proof {
            assert(record_views(st.records@) =~= prior.push(new_record@));
        }
        self.trace = Ghost(self.trace@.push(BackendOp::Create));
        proof {
            assert(self.records@ == mid.update(idx as int, self.records@[idx as int]));
            let f = find_store(pre, zone@.id);
            if f >= pre.len() {
                assert(self.records@.subrange(0, pre.len() as int) =~= pre);
            }
        }
        Ok(new_record)
    }

    fn update_record(&mut self, account: &Account, zone: &Zone, record: DnsRecord) -> (r: Result<
        DnsRecord,
        BackendError,
    >) {
        let ghost pre = self.records@;
        self.ensure_zone(zone);
        let idx = self.find_index(zone.id.as_str());
        proof {
            lemma_find_store_props(pre, zone@.id);
            lemma_find_store_props(self.records@, zone@.id);
            if find_store(self.records@, zone@.id) >= self.records@.len() {
                assert(self.records@.last()@.zone_id == zone@.id);
                assert(false);
            }
            let f = find_store(pre, zone@.id);
            if f < pre.len() {
                assert(idx == f);
            } else {
                if idx < pre.len() {
                    assert(pre[idx as int]@.zone_id != zone@.id);
                    assert(self.records@[idx as int] == pre[idx as int]);
                    assert(false);
                }
            }
        }
        let ghost mid = self.records@;
        let st = &mut self.records[idx];
        let ghost prior = st@.records;
        let m = st.records.len();
        let mut g: usize = 0;
        let mut found = false;
        while !found && g < m
            invariant
                0 <= g <= m,
                m == st.records@.len(),
                prior == record_views(st.records@),
                found ==> g < m && prior[g as int].id == record@.id,
                forall|j: int| 0 <= j < g ==> (#[trigger] prior[j]).id != record@.id,
            decreases m - g, (if found { 0int } else { 1int }),
        {
            if str_eq(st.records[g].id.as_str(), record.id.as_str()) {
                found = true;
            } else {
                g = g + 1;
            }
        }
        proof {
            lemma_find_record_props(prior, record@.id);
            let gg = find_record(prior, record@.id);
            if found {
                if gg < g {
                    assert(prior[gg].id == record@.id);
                    assert(false);
                }
                if gg > g {
                    assert(prior[g as int].id != record@.id);
                    assert(false);
                }
            } else {
                if gg < m {
                    assert(prior[gg].id == record@.id);
                    assert(false);
                }
            }
        }
        if found {
            st.records.set(g, record.clone());
            proof {
                assert(record_views(st.records@) =~= prior.update(g as int, record@));
            }
        }
        self.trace = Ghost(self.trace@.push(BackendOp::Update));
        proof {
            assert(self.records@ == mid.update(idx as int, self.records@[idx as int]));
            let f = find_store(pre, zone@.id);
            if f >= pre.len() {
                assert(self.records@.subrange(0, pre.len() as int) =~= pre);
            }
        }
        Ok(record)
    }

    fn delete_record(&mut self, account: &Account, zone: &Zone, record_id: &str) -> (r: Result<
        (),
        BackendError,
    >) {
        let idx = self.find_index(zone.id.as_str());
        proof {
            lemma_find_store_props(self.records@, zone@.id);
        }
        if idx < self.records.len() {
            let ghost mid = self.records@;
            let st = &mut self.records[idx];
            let ghost prior = st@.records;
            let m = st.records.len();
            let mut kept: Vec<DnsRecord> = Vec::new();
            let mut i: usize = 0;
            while i < m
                invariant
                    0 <= i <= m,
                    m == st.records@.len(),
                    prior == record_views(st.records@),
                    record_views(kept@) == record_views(st.records@.subrange(0, i as int)).filter(
                        |rv: RecordView| rv.id != record_id@,
                    ),
                decreases m - i,
            {
                proof {
                    reveal(Seq::filter);
                    let p = record_views(st.records@.subrange(0, (i + 1) as int));
                    assert(p.drop_last() =~= record_views(st.records@.subrange(0, i as int)));
                    assert(p.last() == st.records@[i as int]@);
                }
                if !str_eq(st.records[i].id.as_str(), record_id) {
                    let ghost kept_old = record_views(kept@);
                    kept.push(st.records[i].clone());
                    proof {
                        assert(record_views(kept@) =~= kept_old.push(st.records@[i as int]@));
                    }
                }
                i = i + 1;
            }
            proof {
                assert(st.records@.subrange(0, m as int) =~= st.records@);
            }
            st.records = kept;
            self.trace = Ghost(self.trace@.push(BackendOp::Delete));
            proof {
                assert(self.records@ == mid.update(idx as int, self.records@[idx as int]));
            }
        } else {
            self.trace = Ghost(self.trace@.push(BackendOp::Delete));
        }
        Ok(())
    }
}

} // verus!
