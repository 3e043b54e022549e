//! The console controller: which account, zone, and record are selected, the
//! active modal, the record filter and pagination, and the actions that move
//! between them through the backend contract.
use vstd::prelude::*;
use crate::backend::{BackendError, BackendOp, DnsBackend};
use crate::forms::{
    default_draft_view, draft_of, AccountForm, ConfirmDelete, RecordDraft, RecordForm,
};
use crate::model::{
    clone_accounts, clone_records, opt_view, Account, AccountView, Config, DnsRecord, RecordView,
    Zone, ZoneView,
};
use crate::paging::{
    lemma_page_count_le_total, lemma_page_count_is_ceiling, lemma_page_start_in_range,
    page_count_spec, page_slice, visible_page,
};
use crate::text::{contains_ci, contains_seq, dec_rep, is_blank, lower, trim_spec, usize_to_string};

verus! {

/// Which of the three lists keyboard navigation currently moves.
#[derive(Clone, Copy, PartialEq, Eq, Structural, Debug)]
pub enum Focus {
    Accounts,
    Zones,
    Records,
}

/// The mutually exclusive interaction modes, each carrying exactly the state
/// that modal needs.
pub enum Mode {
    Normal,
    AddingAccount(AccountForm),
    RecordForm(RecordForm),
    ConfirmDelete(ConfirmDelete),
    Searching(String),
}

/// A record matches a (lower-cased) needle when it occurs in its name, its
/// content, or its type, compared case-insensitively.
pub open spec fn record_matches(r: RecordView, needle: Seq<char>) -> bool {
    contains_seq(lower(r.name), needle) || contains_seq(lower(r.content), needle) || contains_seq(
        lower(r.record_type),
        needle,
    )
}

/// The filtered view of a record list: a whitespace-only filter keeps
/// everything, any other filter keeps the records matching its lower-cased
/// text.
pub open spec fn filtered_records_spec(records: Seq<DnsRecord>, filter: Seq<char>) -> Seq<
    DnsRecord,
> {
    if trim_spec(filter).len() == 0 {
        records
    } else {
        records.filter(|r: DnsRecord| record_matches(r@, lower(filter)))
    }
}

/// Filtering with an empty (or all-whitespace) filter is no filtering at all:
/// the view is the record list itself, whatever it holds.
pub proof fn lemma_empty_filter_is_identity(records: Seq<DnsRecord>, filter: Seq<char>)
    requires
        trim_spec(filter).len() == 0,
    ensures
        filtered_records_spec(records, filter) == records,
{
}

/// The console state: one backend, the three lists with their selections, the
/// modal, the record filter, and pagination.
pub struct App<B: DnsBackend> {
    pub backend: B,
    pub accounts: Vec<Account>,
    pub selected_account: usize,
    pub zones: Vec<Zone>,
    pub selected_zone: usize,
    pub selected_record: usize,
    pub records: Vec<DnsRecord>,
    pub focus: Focus,
    pub mode: Mode,
    pub record_filter: String,
    pub record_page: usize,
    pub record_page_size: usize,
    pub last_message: String,
}

impl<B: DnsBackend> App<B> {
    /// The effective page size: at least one row.
    pub open spec fn page_size_spec(&self) -> int {
        if self.record_page_size >= 1 {
            self.record_page_size as int
        } else {
            1
        }
    }

    /// The filtered view derived from the held records and the active filter.
    pub open spec fn filtered_spec(&self) -> Seq<DnsRecord> {
        filtered_records_spec(self.records@, self.record_filter@)
    }

    /// How many records the filtered view holds.
    pub open spec fn filtered_count(&self) -> int {
        self.filtered_spec().len() as int
    }

    /// Selection consistency: every selected index lies inside its list (or
    /// is zero when the list is empty), and the page lies inside the page
    /// range of the current filtered view.
    pub open spec fn wf(&self) -> bool {
        &&& self.accounts@.len() == 0 ==> self.selected_account == 0
        &&& self.accounts@.len() > 0 ==> self.selected_account < self.accounts@.len()
        &&& self.zones@.len() == 0 ==> self.selected_zone == 0
        &&& self.zones@.len() > 0 ==> self.selected_zone < self.zones@.len()
        &&& self.filtered_count() == 0 ==> self.selected_record == 0 && self.record_page == 0
        &&& self.filtered_count() > 0 ==> self.selected_record < self.filtered_count()
            && self.record_page < page_count_spec(self.filtered_count(), self.page_size_spec())
    }

    /// The account the selection points at, if any.
    pub fn current_account(&self) -> (r: Option<&Account>)
        ensures
            match r {
                Some(a) => self.selected_account < self.accounts@.len() && *a == self.accounts@[
                    self.selected_account as int],
                None => self.selected_account >= self.accounts@.len(),
            },
    {
        if self.selected_account < self.accounts.len() {
            Some(&self.accounts[self.selected_account])
        } else {
            None
        }
    }

    /// The zone the selection points at, if any.
    pub fn current_zone(&self) -> (r: Option<&Zone>)
        ensures
            match r {
                Some(z) => self.selected_zone < self.zones@.len() && *z == self.zones@[
                    self.selected_zone as int],
                None => self.selected_zone >= self.zones@.len(),
            },
    {
        if self.selected_zone < self.zones.len() {
            Some(&self.zones[self.selected_zone])
        } else {
            None
        }
    }

    /// The filtered view, as a freshly owned list; the backing record list is
    /// never touched.
    pub fn filtered_records(&self) -> (r: Vec<DnsRecord>)
        ensures
            r@ == self.filtered_spec(),
    {
        if is_blank(self.record_filter.as_str()) {
            return clone_records(&self.records);
        }
        let mut out: Vec<DnsRecord> = Vec::new();
        let mut i: usize = 0;
        let n = self.records.len();
        while i < n
            invariant
                0 <= i <= n,
                n == self.records@.len(),
                trim_spec(self.record_filter@).len() > 0,
                out@ == self.records@.subrange(0, i as int).filter(
                    |r: DnsRecord| record_matches(r@, lower(self.record_filter@)),
                ),
            decreases n - i,
        {
            proof {
                reveal(Seq::filter);
                assert(self.records@.subrange(0, (i + 1) as int).drop_last() == self.records@
                    .subrange(0, i as int));
            }
            let rec = &self.records[i];
            let hit = contains_ci(rec.name.as_str(), self.record_filter.as_str()) || contains_ci(
                rec.content.as_str(),
                self.record_filter.as_str(),
            ) || contains_ci(rec.record_type.as_str(), self.record_filter.as_str());
            if hit {
                out.push(rec.clone());
            }
            i = i + 1;
        }
        proof {
            assert(self.records@.subrange(0, n as int) == self.records@);
        }
        out
    }

    /// The effective page size, never below one row.
    pub fn page_size(&self) -> (r: usize)
        ensures
            r as int == self.page_size_spec(),
    {
        if self.record_page_size >= 1 {
            self.record_page_size
        } else {
            1
        }
    }

    /// The number of pages that `total` filtered records fill: the ceiling of
    /// `total` over the page size, and zero when the view is empty.
    pub fn record_page_count(&self, total: usize) -> (r: usize)
        ensures
            r as int == page_count_spec(total as int, self.page_size_spec()),
    {
        if total == 0 {
            0
        } else {
            let ps = self.page_size();
            proof {
                lemma_page_count_le_total(total as int, ps as int);
            }
            (total - 1) / ps + 1
        }
    }

    /// The slice of the filtered view that the current page shows.
    pub fn paged_records(&self) -> (r: Vec<DnsRecord>)
        requires
            self.wf(),
        ensures
            r@ == page_slice(self.filtered_spec(), self.record_page as int, self.page_size_spec()),
    {
        let filtered = self.filtered_records();
        if filtered.len() == 0 {
            proof {
                assert(page_slice(
                    self.filtered_spec(),
                    self.record_page as int,
                    self.page_size_spec(),
                ) =~= filtered@);
            }
            return filtered;
        }
        let ps = self.page_size();
        proof {
            lemma_page_start_in_range(
                self.filtered_count(),
                self.page_size_spec(),
                self.record_page as int,
            );
        }
        let start = self.record_page * ps;
        let end = if filtered.len() - start > ps {
            start + ps
        } else {
            filtered.len()
        };
        let mut out: Vec<DnsRecord> = Vec::new();
        let mut j: usize = start;
        while j < end
            invariant
                start <= j <= end,
                end <= filtered@.len(),
                out@ == filtered@.subrange(start as int, j as int),
            decreases end - j,
        {
            out.push(filtered[j].clone());
            proof {
                assert(out@ =~= filtered@.subrange(start as int, (j + 1) as int));
            }
            j = j + 1;
        }
        proof {
            assert(out@ =~= page_slice(
                self.filtered_spec(),
                self.record_page as int,
                self.page_size_spec(),
            ));
        }
        out
    }

    /// How `ensure_record_visible` changes the state: only the page moves,
    /// onto the page holding the selection.
    pub open spec fn ensure_visible_rel(pre: Self, post: Self, total: int) -> bool {
        post == (Self {
            record_page: visible_page(
                pre.selected_record as int,
                pre.page_size_spec(),
                total,
            ) as usize,
            ..pre
        })
    }

    /// Move the current page so that the selected record is on it.
    pub fn ensure_record_visible(&mut self, total: usize)
        requires
            old(self).wf(),
            total as int == old(self).filtered_count(),
        ensures
            Self::ensure_visible_rel(*old(self), *final(self), total as int),
            final(self).wf(),
    {
        if total == 0 {
            self.record_page = 0;
            self.selected_record = 0;
            return;
        }
        let ps = self.page_size();
        let page = self.selected_record / ps;
        let pc = self.record_page_count(total);
        proof {
            lemma_page_count_is_ceiling(total as int, ps as int);
        }
        self.record_page = if page < pc - 1 {
            page
        } else {
            pc - 1
        };
        proof {
            vstd::arithmetic::div_mod::lemma_div_is_ordered(
                self.selected_record as int,
                total as int - 1,
                ps as int,
            );
        }
    }

    /// The record the selection points at in the filtered view, if any.
    pub fn current_record(&self) -> (r: Option<DnsRecord>)
        ensures
            match r {
                Some(rec) => self.selected_record < self.filtered_count() && rec
                    == self.filtered_spec()[self.selected_record as int],
                None => self.selected_record >= self.filtered_count(),
            },
    {
        let filtered = self.filtered_records();
        if self.selected_record < filtered.len() {
            Some(filtered[self.selected_record].clone())
        } else {
            None
        }
    }

    /// What every data refresh leaves alone: the account list and its
    /// selection, the focus, the modal, the filter, and the page size.
    pub open spec fn refresh_keeps_frame(pre: Self, post: Self) -> bool {
        &&& post.accounts@ == pre.accounts@
        &&& post.selected_account == pre.selected_account
        &&& post.focus == pre.focus
        &&& post.mode == pre.mode
        &&& post.record_filter@ == pre.record_filter@
        &&& post.record_page_size == pre.record_page_size
    }

    /// Reload the zone list for the selected account. Without an account both
    /// lists are cleared; on a failed call every list and selection is left
    /// unchanged and only the status text carries the error.
    pub fn refresh_zones(&mut self) -> (ok: bool)
        requires
            old(self).wf(),
        ensures
            final(self).wf(),
            Self::refresh_keeps_frame(*old(self), *final(self)),
            old(self).accounts@.len() == 0 ==> ({
                &&& ok
                &&& final(self).backend == old(self).backend
                &&& final(self).zones@.len() == 0
                &&& final(self).records@.len() == 0
                &&& final(self).selected_zone == 0
                &&& final(self).selected_record == 0
                &&& final(self).record_page == 0
                &&& final(self).last_message@ == old(self).last_message@
            }),
            old(self).accounts@.len() > 0 ==> ({
                let account = old(self).accounts@[old(self).selected_account as int];
                &&& final(self).backend.log() == old(self).backend.log().push(BackendOp::Zones)
                &&& final(self).records@ == old(self).records@
                &&& final(self).selected_record == old(self).selected_record
                &&& final(self).record_page == old(self).record_page
                &&& if ok {
                    exists|zs: Vec<Zone>|
                        {
                            &&& #[trigger] B::list_zones_post(
                                old(self).backend,
                                final(self).backend,
                                account@,
                                Ok(zs),
                            )
                            &&& final(self).zones == zs
                            &&& final(self).selected_zone == (if old(self).selected_zone
                                < zs@.len() {
                                old(self).selected_zone as int
                            } else {
                                0
                            })
                            &&& final(self).last_message@ == "Loaded "@ + dec_rep(
                                zs@.len() as int,
                            ) + " zone(s) for "@ + account@.name
                        }
                } else {
                    &&& final(self).zones@ == old(self).zones@
                    &&& final(self).selected_zone == old(self).selected_zone
                    &&& exists|e: BackendError|
                        #[trigger] B::list_zones_post(
                            old(self).backend,
                            final(self).backend,
                            account@,
                            Err(e),
                        ) && final(self).last_message@ == e.message@
                }
            }),
    {
        let account = match self.current_account() {
            Some(a) => Some(a.clone()),
            None => None,
        };
        match account {
            Some(account) => {
                let r = self.backend.list_zones(&account);
                match r {
                    Ok(zs) => {
                        self.zones = zs;
                        if self.selected_zone >= self.zones.len() {
                            self.selected_zone = 0;
                        }
                        let num = usize_to_string(self.zones.len());
                        let mut m = "Loaded ".to_owned();
                        m.append(num.as_str());
                        m.append(" zone(s) for ");
                        m.append(account.name.as_str());
                        self.last_message = m;
                        proof {
                            assert(B::list_zones_post(
                                old(self).backend,
                                self.backend,
                                old(self).accounts@[old(self).selected_account as int]@,
                                Ok(self.zones),
                            ));
                        }
                        true
                    },
                    Err(e) => {
                        self.last_message = e.message.clone();
                        proof {
                            assert(B::list_zones_post(
                                old(self).backend,
                                self.backend,
                                old(self).accounts@[old(self).selected_account as int]@,
                                Err(e),
                            ));
                        }
                        false
                    },
                }
            },
            None => {
                self.zones.clear();
                self.records.clear();
                self.selected_zone = 0;
                self.selected_record = 0;
                self.record_page = 0;
                true
            },
        }
    }

    /// The two possible endings of a record-list refresh that reached the
    /// backend: on success the fetched list replaces the held one with the
    /// selection and page reset to the start and a count in the status text;
    /// on failure every list and selection is kept and the status text
    /// carries the error.
    pub open spec fn records_outcome(
        pre: Self,
        post: Self,
        account: AccountView,
        zone: ZoneView,
    ) -> bool {
        &&& post.backend.log() == pre.backend.log().push(BackendOp::Records)
        &&& ({
            ||| exists|rs: Vec<DnsRecord>|
                {
                    &&& #[trigger] B::list_records_post(pre.backend, post.backend, account, zone, Ok(rs))
                    &&& post.records == rs
                    &&& post.selected_record == 0
                    &&& post.record_page == 0
                    &&& post.last_message@ == dec_rep(rs@.len() as int) + " record(s) in "@
                        + zone.name
                }
            ||| exists|e: BackendError|
                {
                    &&& #[trigger] B::list_records_post(pre.backend, post.backend, account, zone, Err(e))
                    &&& post.records@ == pre.records@
                    &&& post.selected_record == pre.selected_record
                    &&& post.record_page == pre.record_page
                    &&& post.last_message@ == e.message@
                }
        })
    }

    /// Reload the record list for the selected zone. Without an account or a
    /// zone the record list is cleared; a successful reload resets the record
    /// selection and the page to the start; a failed call leaves everything
    /// but the status text unchanged.
    pub fn refresh_records(&mut self) -> (ok: bool)
        requires
            old(self).wf(),
        ensures
            final(self).wf(),
            Self::refresh_keeps_frame(*old(self), *final(self)),
            final(self).zones@ == old(self).zones@,
            final(self).selected_zone == old(self).selected_zone,
            (old(self).accounts@.len() == 0 || old(self).zones@.len() == 0) ==> ({
                &&& ok
                &&& final(self).backend == old(self).backend
                &&& final(self).records@.len() == 0
                &&& final(self).selected_record == 0
                &&& final(self).record_page == 0
                &&& final(self).last_message@ == old(self).last_message@
            }),
            (old(self).accounts@.len() > 0 && old(self).zones@.len() > 0) ==> ({
                let account = old(self).accounts@[old(self).selected_account as int];
                let zone = old(self).zones@[old(self).selected_zone as int];
                &&& Self::records_outcome(*old(self), *final(self), account@, zone@)
                &&& if ok {
                    exists|rs: Vec<DnsRecord>|
                        #[trigger] B::list_records_post(
                            old(self).backend,
                            final(self).backend,
                            account@,
                            zone@,
                            Ok(rs),
                        ) && final(self).records == rs
                } else {
                    final(self).records@ == old(self).records@ && final(self).selected_record
                        == old(self).selected_record && final(self).record_page == old(
                        self,
                    ).record_page
                }
            }),
    {
        let account = match self.current_account() {
            Some(a) => Some(a.clone()),
            None => None,
        };
        let zone = match self.current_zone() {
            Some(z) => Some(z.clone()),
            None => None,
        };
        match (account, zone) {
            (Some(account), Some(zone)) => {
                let r = self.backend.list_records(&account, &zone);
                match r {
                    Ok(rs) => {
                        self.records = rs;
                        self.selected_record = 0;
                        self.record_page = 0;
                        let num = usize_to_string(self.records.len());
                        let mut m = num;
                        m.append(" record(s) in ");
                        m.append(zone.name.as_str());
                        self.last_message = m;
                        proof {
                            assert(B::list_records_post(
                                old(self).backend,
                                self.backend,
                                old(self).accounts@[old(self).selected_account as int]@,
                                old(self).zones@[old(self).selected_zone as int]@,
                                Ok(self.records),
                            ));
                        }
                        true
                    },
                    Err(e) => {
                        self.last_message = e.message.clone();
                        proof {
                            assert(B::list_records_post(
                                old(self).backend,
                                self.backend,
                                old(self).accounts@[old(self).selected_account as int]@,
                                old(self).zones@[old(self).selected_zone as int]@,
                                Err(e),
                            ));
                        }
                        false
                    },
                }
            },
            _ => {
                self.records.clear();
                self.selected_record = 0;
                self.record_page = 0;
                true
            },
        }
    }

    /// A cascading refresh whose zone call failed: one trace entry, every
    /// list and selection kept, and the error in the status text.
    pub open spec fn cascade_zones_failed(
        pre: Self,
        post: Self,
        account: AccountView,
    ) -> bool {
        &&& post.backend.log() == pre.backend.log().push(BackendOp::Zones)
        &&& post.zones@ == pre.zones@
        &&& post.selected_zone == pre.selected_zone
        &&& post.records@ == pre.records@
        &&& post.selected_record == pre.selected_record
        &&& post.record_page == pre.record_page
        &&& exists|e: BackendError|
            #[trigger] B::list_zones_post(pre.backend, post.backend, account, Err(e))
                && post.last_message@ == e.message@
    }

    /// A cascading refresh whose zone call returned no zones: one trace
    /// entry, the empty zone list installed, the record view cleared, and no
    /// record call made.
    pub open spec fn cascade_no_zones(
        pre: Self,
        post: Self,
        account: AccountView,
    ) -> bool {
        &&& post.backend.log() == pre.backend.log().push(BackendOp::Zones)
        &&& exists|zs: Vec<Zone>|
            #[trigger] B::list_zones_post(pre.backend, post.backend, account, Ok(zs)) && zs@.len()
                == 0 && post.zones@ == zs@
        &&& post.selected_zone == 0
        &&& post.records@.len() == 0
        &&& post.selected_record == 0
        &&& post.record_page == 0
        &&& post.last_message@ == "Loaded "@ + dec_rep(0) + " zone(s) for "@ + account.name
    }

    /// A cascading refresh whose zone call returned zones: the fetched list
    /// is installed with the zone selection clamped, and exactly one record
    /// refresh follows for the selected zone, ending as `records_outcome`
    /// says (selection and page at 0 when it succeeded).
    pub open spec fn cascade_full(pre: Self, post: Self, account: AccountView) -> bool {
        exists|mid: Self|
            {
                &&& mid.backend.log() == pre.backend.log().push(BackendOp::Zones)
                &&& exists|zs: Vec<Zone>|
                    #[trigger] B::list_zones_post(pre.backend, mid.backend, account, Ok(zs))
                        && mid.zones == zs && zs@.len() > 0
                &&& mid.selected_zone == (if pre.selected_zone < mid.zones@.len() {
                    pre.selected_zone as int
                } else {
                    0
                })
                &&& mid.records@ == pre.records@
                &&& mid.selected_record == pre.selected_record
                &&& mid.record_page == pre.record_page
                &&& post.zones@ == mid.zones@
                &&& post.selected_zone == mid.selected_zone
                &&& #[trigger] Self::records_outcome(
                    mid,
                    post,
                    account,
                    mid.zones@[mid.selected_zone as int]@,
                )
            }
    }

    /// Every ending a cascading refresh can take, for a selected account:
    /// the zone call failed, or it returned no zones, or it returned zones
    /// and exactly one record refresh followed.
    pub open spec fn cascade_refreshed(
        pre: Self,
        post: Self,
        account: AccountView,
    ) -> bool {
        ||| Self::cascade_zones_failed(pre, post, account)
        ||| Self::cascade_no_zones(pre, post, account)
        ||| Self::cascade_full(pre, post, account)
    }

    /// Reload zones and, when that worked, records, as one cascading refresh.
    pub fn refresh_current(&mut self)
        requires
            old(self).wf(),
        ensures
            final(self).wf(),
            Self::refresh_keeps_frame(*old(self), *final(self)),
            old(self).selected_zone == 0 ==> final(self).selected_zone == 0,
            (old(self).selected_record == 0 && old(self).record_page == 0) ==> (final(self).selected_record == 0 && final(self).record_page == 0),
            old(self).accounts@.len() == 0 ==> ({
                &&& final(self).backend == old(self).backend
                &&& final(self).zones@.len() == 0
                &&& final(self).records@.len() == 0
                &&& final(self).selected_zone == 0
                &&& final(self).selected_record == 0
                &&& final(self).record_page == 0
                &&& final(self).last_message@ == old(self).last_message@
            }),
            old(self).accounts@.len() > 0 ==> Self::cascade_refreshed(
                *old(self),
                *final(self),
                old(self).accounts@[old(self).selected_account as int]@,
            ),
            old(self).accounts@.len() > 0 ==> (final(self).backend.log() == old(
                self,
            ).backend.log().push(BackendOp::Zones) || final(self).backend.log() == old(
                self,
            ).backend.log() + seq![BackendOp::Zones, BackendOp::Records]),
    {
        let ghost pre = *self;
        let ok = self.refresh_zones();
        let ghost mid = *self;
        if ok {
            self.refresh_records();
            proof {
                if pre.accounts@.len() > 0 {
                    let account = pre.accounts@[pre.selected_account as int]@;
                    assert(B::list_zones_post(pre.backend, mid.backend, account, Ok(mid.zones)));
                    if mid.zones@.len() == 0 {
                        assert(Self::cascade_no_zones(pre, *self, account));
                    } else {
                        assert(Self::records_outcome(
                            mid,
                            *self,
                            account,
                            mid.zones@[mid.selected_zone as int]@,
                        ));
                        assert(Self::cascade_full(pre, *self, account));
                        assert(self.backend.log() == pre.backend.log().push(BackendOp::Zones).push(
                            BackendOp::Records,
                        ));
                        assert(pre.backend.log().push(BackendOp::Zones).push(BackendOp::Records)
                            =~= pre.backend.log() + seq![BackendOp::Zones, BackendOp::Records]);
                    }
                }
            }
        } else {
            proof {
                assert(Self::cascade_zones_failed(
                    pre,
                    *self,
                    pre.accounts@[pre.selected_account as int]@,
                ));
            }
        }
    }

    /// Step to the next account, wrapping at the end of the list; the zone
    /// selection is reset and both dependent lists are refreshed.
    pub fn next_account(&mut self)
        requires
            old(self).wf(),
        ensures
            final(self).wf(),
            old(self).accounts@.len() == 0 ==> *final(self) == *old(self),
            old(self).accounts@.len() > 0 ==> ({
                &&& final(self).accounts@ == old(self).accounts@
                &&& final(self).selected_account == ((old(self).selected_account + 1) % (old(
                    self,
                ).accounts@.len() as int))
                &&& final(self).selected_zone == 0
                &&& final(self).mode == old(self).mode
                &&& final(self).focus == old(self).focus
                &&& final(self).record_filter@ == old(self).record_filter@
                &&& final(self).record_page_size == old(self).record_page_size
                &&& (final(self).backend.log() == old(self).backend.log().push(BackendOp::Zones)
                    || final(self).backend.log() == old(self).backend.log() + seq![
                    BackendOp::Zones,
                    BackendOp::Records,
                ])
                &&& ({
                    let next = (old(self).selected_account + 1) % (old(
                        self,
                    ).accounts@.len() as int);
                    Self::cascade_refreshed(
                        Self { selected_account: next as usize, selected_zone: 0, ..*old(self) },
                        *final(self),
                        old(self).accounts@[next]@,
                    )
                })
            }),
    {
        if self.accounts.len() == 0 {
            return;
        }
        self.selected_account = (self.selected_account + 1) % self.accounts.len();
        self.selected_zone = 0;
        proof {
            assert(*self == (Self {
                selected_account: self.selected_account,
                selected_zone: 0,
                ..*old(self)
            }));
        }
        self.refresh_current();
    }

    /// Step to the previous account, wrapping at the start of the list; the
    /// zone selection is reset and both dependent lists are refreshed.
    pub fn previous_account(&mut self)
        requires
            old(self).wf(),
        ensures
            final(self).wf(),
            old(self).accounts@.len() == 0 ==> *final(self) == *old(self),
            old(self).accounts@.len() > 0 ==> ({
                &&& final(self).accounts@ == old(self).accounts@
                &&& final(self).selected_account == (if old(self).selected_account == 0 {
                    old(self).accounts@.len() - 1
                } else {
                    old(self).selected_account - 1
                })
                &&& final(self).selected_zone == 0
                &&& final(self).mode == old(self).mode
                &&& final(self).focus == old(self).focus
                &&& final(self).record_filter@ == old(self).record_filter@
                &&& final(self).record_page_size == old(self).record_page_size
                &&& (final(self).backend.log() == old(self).backend.log().push(BackendOp::Zones)
                    || final(self).backend.log() == old(self).backend.log() + seq![
                    BackendOp::Zones,
                    BackendOp::Records,
                ])
                &&& ({
                    let prev = if old(self).selected_account == 0 {
                        old(self).accounts@.len() - 1
                    } else {
                        old(self).selected_account - 1
                    };
                    Self::cascade_refreshed(
                        Self { selected_account: prev as usize, selected_zone: 0, ..*old(self) },
                        *final(self),
                        old(self).accounts@[prev as int]@,
                    )
                })
            }),
    {
        if self.accounts.len() == 0 {
            return;
        }
        if self.selected_account == 0 {
            self.selected_account = self.accounts.len() - 1;
        } else {
            self.selected_account = self.selected_account - 1;
        }
        self.selected_zone = 0;
        proof {
            assert(*self == (Self {
                selected_account: self.selected_account,
                selected_zone: 0,
                ..*old(self)
            }));
        }
        self.refresh_current();
    }

    /// Step to the next zone, wrapping, and refresh its records.
    pub fn next_zone(&mut self)
        requires
            old(self).wf(),
        ensures
            final(self).wf(),
            old(self).zones@.len() == 0 ==> *final(self) == *old(self),
            old(self).zones@.len() > 0 ==> ({
                &&& final(self).zones@ == old(self).zones@
                &&& final(self).accounts@ == old(self).accounts@
                &&& final(self).selected_account == old(self).selected_account
                &&& final(self).selected_zone == ((old(self).selected_zone + 1) % (old(
                    self,
                ).zones@.len() as int))
                &&& final(self).mode == old(self).mode
                &&& final(self).focus == old(self).focus
                &&& final(self).record_filter@ == old(self).record_filter@
                &&& final(self).record_page_size == old(self).record_page_size
                &&& (old(self).accounts@.len() > 0 ==> final(self).backend.log() == old(
                    self,
                ).backend.log().push(BackendOp::Records))
                &&& (old(self).accounts@.len() == 0 ==> final(self).backend == old(self).backend)
                &&& (old(self).accounts@.len() > 0 ==> ({
                    let next = (old(self).selected_zone + 1) % (old(self).zones@.len() as int);
                    Self::records_outcome(
                        Self { selected_zone: next as usize, ..*old(self) },
                        *final(self),
                        old(self).accounts@[old(self).selected_account as int]@,
                        old(self).zones@[next]@,
                    )
                }))
            }),
    {
        if self.zones.len() == 0 {
            return;
        }
        self.selected_zone = (self.selected_zone + 1) % self.zones.len();
        proof {
            assert(*self == (Self { selected_zone: self.selected_zone, ..*old(self) }));
        }
        self.refresh_records();
    }

    /// Step to the previous zone, wrapping, and refresh its records.
    pub fn previous_zone(&mut self)
        requires
            old(self).wf(),
        ensures
            final(self).wf(),
            old(self).zones@.len() == 0 ==> *final(self) == *old(self),
            old(self).zones@.len() > 0 ==> ({
                &&& final(self).zones@ == old(self).zones@
                &&& final(self).accounts@ == old(self).accounts@
                &&& final(self).selected_account == old(self).selected_account
                &&& final(self).selected_zone == (if old(self).selected_zone == 0 {
                    old(self).zones@.len() - 1
                } else {
                    old(self).selected_zone - 1
                })
                &&& final(self).mode == old(self).mode
                &&& final(self).focus == old(self).focus
                &&& final(self).record_filter@ == old(self).record_filter@
                &&& final(self).record_page_size == old(self).record_page_size
                &&& (old(self).accounts@.len() > 0 ==> final(self).backend.log() == old(
                    self,
                ).backend.log().push(BackendOp::Records))
                &&& (old(self).accounts@.len() == 0 ==> final(self).backend == old(self).backend)
                &&& (old(self).accounts@.len() > 0 ==> ({
                    let prev = if old(self).selected_zone == 0 {
                        old(self).zones@.len() - 1
                    } else {
                        old(self).selected_zone - 1
                    };
                    Self::records_outcome(
                        Self { selected_zone: prev as usize, ..*old(self) },
                        *final(self),
                        old(self).accounts@[old(self).selected_account as int]@,
                        old(self).zones@[prev as int]@,
                    )
                }))
            }),
    {
        if self.zones.len() == 0 {
            return;
        }
        if self.selected_zone == 0 {
            self.selected_zone = self.zones.len() - 1;
        } else {
            self.selected_zone = self.selected_zone - 1;
        }
        proof {
            assert(*self == (Self { selected_zone: self.selected_zone, ..*old(self) }));
        }
        self.refresh_records();
    }

    /// A snapshot of the account list as the persisted configuration.
    pub fn save_accounts(&self) -> (c: Config)
        ensures
            c.accounts@ == self.accounts@,
    {
        Config { accounts: clone_accounts(&self.accounts) }
    }

    /// Step the record selection forward, clamping at the end of the filtered
    /// view, and bring its page into view.
    pub fn next_record(&mut self)
        requires
            old(self).wf(),
        ensures
            final(self).wf(),
            old(self).filtered_count() == 0 ==> *final(self) == *old(self),
            old(self).filtered_count() > 0 ==> ({
                let total = old(self).filtered_count();
                let sel = if old(self).selected_record + 1 < total {
                    old(self).selected_record + 1
                } else {
                    total - 1
                };
                *final(self) == (Self {
                    selected_record: sel as usize,
                    record_page: visible_page(sel, old(self).page_size_spec(), total) as usize,
                    ..*old(self)
                })
            }),
    {
        let filtered = self.filtered_records();
        let total = filtered.len();
        if total == 0 {
            return;
        }
        let next = self.selected_record + 1;
        self.selected_record = if next < total {
            next
        } else {
            total - 1
        };
        self.ensure_record_visible(total);
    }

    /// Step the record selection backward, clamping at the start of the
    /// filtered view, and bring its page into view.
    pub fn previous_record(&mut self)
        requires
            old(self).wf(),
        ensures
            final(self).wf(),
            old(self).filtered_count() == 0 ==> *final(self) == *old(self),
            old(self).filtered_count() > 0 ==> ({
                let total = old(self).filtered_count();
                let sel = if old(self).selected_record == 0 {
                    0
                } else {
                    old(self).selected_record - 1
                };
                *final(self) == (Self {
                    selected_record: sel as usize,
                    record_page: visible_page(sel, old(self).page_size_spec(), total) as usize,
                    ..*old(self)
                })
            }),
    {
        let filtered = self.filtered_records();
        let total = filtered.len();
        if total == 0 {
            return;
        }
        if self.selected_record == 0 {
            self.selected_record = 0;
        } else {
            self.selected_record = self.selected_record - 1;
        }
        self.ensure_record_visible(total);
    }

    /// Step to the next page, wrapping, and select that page's first record.
    pub fn next_page(&mut self)
        requires
            old(self).wf(),
        ensures
            final(self).wf(),
            old(self).filtered_count() == 0 ==> *final(self) == *old(self),
            old(self).filtered_count() > 0 ==> ({
                let pc = page_count_spec(old(self).filtered_count(), old(self).page_size_spec());
                let page = (old(self).record_page + 1) % pc;
                *final(self) == (Self {
                    record_page: page as usize,
                    selected_record: (page * old(self).page_size_spec()) as usize,
                    ..*old(self)
                })
            }),
    {
        let filtered = self.filtered_records();
        let total = filtered.len();
        let pc = self.record_page_count(total);
        if pc == 0 {
            return;
        }
        self.record_page = (self.record_page + 1) % pc;
        let ps = self.page_size();
        proof {
            lemma_page_start_in_range(total as int, ps as int, self.record_page as int);
        }
        self.selected_record = self.record_page * ps;
    }

    /// Step to the previous page, wrapping, and select that page's first
    /// record.
    pub fn previous_page(&mut self)
        requires
            old(self).wf(),
        ensures
            final(self).wf(),
            old(self).filtered_count() == 0 ==> *final(self) == *old(self),
            old(self).filtered_count() > 0 ==> ({
                let pc = page_count_spec(old(self).filtered_count(), old(self).page_size_spec());
                let page = if old(self).record_page == 0 {
                    pc - 1
                } else {
                    old(self).record_page - 1
                };
                *final(self) == (Self {
                    record_page: page as usize,
                    selected_record: (page * old(self).page_size_spec()) as usize,
                    ..*old(self)
                })
            }),
    {
        let filtered = self.filtered_records();
        let total = filtered.len();
        let pc = self.record_page_count(total);
        if pc == 0 {
            return;
        }
        if self.record_page == 0 {
            self.record_page = pc - 1;
        } else {
            self.record_page = self.record_page - 1;
        }
        let ps = self.page_size();
        proof {
            lemma_page_start_in_range(total as int, ps as int, self.record_page as int);
        }
        self.selected_record = self.record_page * ps;
    }

    /// Recompute pagination for a changed display height: the page size is
    /// the usable rows (three are taken by the header and the borders, and at
    /// least one row always remains), and page and selection are clamped and
    /// re-synchronized.
    pub fn update_record_page_size(&mut self, area_height: u16)
        requires
            old(self).wf(),
        ensures
            final(self).wf(),
            derived_page_size(area_height as int) == old(self).record_page_size ==> *final(self)
                == *old(self),
            derived_page_size(area_height as int) != old(self).record_page_size ==> ({
                let total = old(self).filtered_count();
                let sel = if total == 0 {
                    0
                } else if old(self).selected_record < total {
                    old(self).selected_record as int
                } else {
                    total - 1
                };
                let ps = derived_page_size(area_height as int);
                *final(self) == (Self {
                    record_page_size: ps as usize,
                    selected_record: sel as usize,
                    record_page: visible_page(sel, ps, total) as usize,
                    ..*old(self)
                })
            }),
    {
        let usable = area_height as usize;
        let new_size = if usable >= 4 {
            usable - 3
        } else {
            1
        };
        if new_size != self.record_page_size {
            self.record_page_size = new_size;
            let filtered = self.filtered_records();
            let total = filtered.len();
            let pc = self.record_page_count(total);
            self.record_page = if pc == 0 {
                0
            } else if self.record_page < pc - 1 {
                self.record_page
            } else {
                pc - 1
            };
            self.selected_record = if total == 0 {
                0
            } else if self.selected_record < total {
                self.selected_record
            } else {
                total - 1
            };
            self.ensure_record_visible(total);
        }
    }

    /// The two-line status text: a fixed help line, and a detail line
    /// naming the selected account and zone, the page position, how many
    /// records the page shows, whether the view is filtered, and the last
    /// status message.
    pub open spec fn status_detail(self) -> Seq<char> {
        if self.accounts@.len() == 0 {
            "No accounts configured. Press 'a' to add one. Tokens are stored locally."@
        } else {
            let account_name = if self.selected_account < self.accounts@.len() {
                self.accounts@[self.selected_account as int].name@
            } else {
                "No account"@
            };
            let zone_name = if self.selected_zone < self.zones@.len() {
                self.zones@[self.selected_zone as int].name@
            } else {
                "No zone"@
            };
            let zone_index: int = if self.zones@.len() == 0 {
                0
            } else {
                self.selected_zone + 1
            };
            let zone_total: int = if self.zones@.len() == 0 {
                1
            } else {
                self.zones@.len() as int
            };
            let pc = page_count_spec(self.filtered_count(), self.page_size_spec());
            let pc1: int = if pc == 0 {
                1
            } else {
                pc
            };
            let shown = page_slice(
                self.filtered_spec(),
                self.record_page as int,
                self.page_size_spec(),
            ).len();
            let suffix = if trim_spec(self.record_filter@).len() == 0 {
                Seq::<char>::empty()
            } else {
                " filtered"@
            };
            "Account: "@ + account_name + " ("@ + dec_rep(self.selected_account + 1) + "/"@
                + dec_rep(self.accounts@.len() as int) + ") | Zone: "@ + zone_name + " ("@
                + dec_rep(zone_index) + "/"@ + dec_rep(zone_total) + ") | Records: page "@
                + dec_rep(self.record_page + 1) + "/"@ + dec_rep(pc1) + " ("@ + dec_rep(
                shown as int,
            ) + " shown"@ + suffix + ") | "@ + self.last_message@
        }
    }

    /// The two lines the presentation layer paints below the lists.
    pub fn status_message(&self) -> (r: (String, String))
        requires
            self.wf(),
        ensures
            r.0@ == help_line(),
            r.1@ == self.status_detail(),
    {
        let help =
            "q: quit  a: add account  r: refresh  Tab/Shift+Tab: focus  ↑/↓: move  /: search  n/e/d: new/edit/del  PgUp/PgDn: pages";
        if self.accounts.len() == 0 {
            return (
                help.to_owned(),
                "No accounts configured. Press 'a' to add one. Tokens are stored locally.".to_owned(),
            );
        }
        let mut m = "Account: ".to_owned();
        m.append(self.accounts[self.selected_account].name.as_str());
        m.append(" (");
        let s_acct = usize_to_string(self.selected_account + 1);
        m.append(s_acct.as_str());
        m.append("/");
        let s_acct_total = usize_to_string(self.accounts.len());
        m.append(s_acct_total.as_str());
        m.append(") | Zone: ");
        if self.selected_zone < self.zones.len() {
            m.append(self.zones[self.selected_zone].name.as_str());
        } else {
            m.append("No zone");
        }
        m.append(" (");
        let zone_index: usize = if self.zones.len() == 0 {
            0
        } else {
            self.selected_zone + 1
        };
        let s_zone = usize_to_string(zone_index);
        m.append(s_zone.as_str());
        m.append("/");
        let zone_total: usize = if self.zones.len() == 0 {
            1
        } else {
            self.zones.len()
        };
        let s_zone_total = usize_to_string(zone_total);
        m.append(s_zone_total.as_str());
        m.append(") | Records: page ");
        let filtered = self.filtered_records();
        let total = filtered.len();
        proof {
            if total > 0 {
                lemma_page_count_le_total(total as int, self.page_size_spec());
            }
        }
        let s_page = usize_to_string(self.record_page + 1);
        m.append(s_page.as_str());
        m.append("/");
        let pc = self.record_page_count(total);
        let pc1: usize = if pc == 0 {
            1
        } else {
            pc
        };
        let s_pc = usize_to_string(pc1);
        m.append(s_pc.as_str());
        m.append(" (");
        let paged = self.paged_records();
        let s_shown = usize_to_string(paged.len());
        m.append(s_shown.as_str());
        m.append(" shown");
        if !is_blank(self.record_filter.as_str()) {
            m.append(" filtered");
        }
        m.append(") | ");
        m.append(self.last_message.as_str());
        proof {
            assert(m@ =~= self.status_detail());
        }
        (help.to_owned(), m)
    }

    /// A console over `accounts` and one chosen backend: everything starts
    /// unselected and unfiltered, the lists are refreshed once, and with no
    /// account configured the add-account modal opens as onboarding.
    pub fn new(accounts: Vec<Account>, backend: B) -> (app: App<B>)
        ensures
            app.wf(),
            app.accounts@ == accounts@,
            app.selected_account == 0,
            app.selected_zone == 0,
            app.selected_record == 0,
            app.record_page == 0,
            app.focus == Focus::Accounts,
            app.record_filter@.len() == 0,
            app.record_page_size == 10,
            accounts@.len() == 0 ==> ({
                &&& app.backend == backend
                &&& match app.mode {
                    Mode::AddingAccount(f) => f@.name.len() == 0 && f@.api_token.len() == 0
                        && f@.email.len() == 0 && f@.account_id.len() == 0 && f@.field_index == 0,
                    _ => false,
                }
                &&& app.last_message@ == "Add your first Cloudflare account (name + API token)."@
            }),
            accounts@.len() > 0 ==> ({
                &&& app.mode is Normal
                &&& app.selected_account == 0
                &&& (app.backend.log() == backend.log().push(BackendOp::Zones) || app.backend.log()
                    == backend.log() + seq![BackendOp::Zones, BackendOp::Records])
            }),
    {
        let mut app = App {
            backend,
            accounts,
            selected_account: 0,
            zones: Vec::new(),
            selected_zone: 0,
            selected_record: 0,
            records: Vec::new(),
            focus: Focus::Accounts,
            mode: Mode::Normal,
            record_filter: String::new(),
            record_page: 0,
            record_page_size: 10,
            last_message: String::new(),
        };
        app.refresh_current();
        if app.accounts.len() == 0 {
            app.mode = Mode::AddingAccount(AccountForm::default());
            app.last_message = "Add your first Cloudflare account (name + API token).".to_owned();
        }
        app
    }

    /// What a modal transition leaves alone: everything but the modal and the
    /// status text.
    pub open spec fn only_modal_changed(pre: Self, post: Self) -> bool {
        &&& post.backend == pre.backend
        &&& post.accounts@ == pre.accounts@
        &&& post.selected_account == pre.selected_account
        &&& post.zones@ == pre.zones@
        &&& post.selected_zone == pre.selected_zone
        &&& post.selected_record == pre.selected_record
        &&& post.records@ == pre.records@
        &&& post.focus == pre.focus
        &&& post.record_filter@ == pre.record_filter@
        &&& post.record_page == pre.record_page
        &&& post.record_page_size == pre.record_page_size
    }

    /// The record the selection points at in the filtered view.
    pub open spec fn current_record_spec(self) -> Option<RecordView> {
        if self.selected_record < self.filtered_count() {
            Some(self.filtered_spec()[self.selected_record as int]@)
        } else {
            None
        }
    }

    /// Open the add-account form.
    pub fn start_add_account(&mut self)
        requires
            old(self).wf(),
        ensures
            final(self).wf(),
            Self::only_modal_changed(*old(self), *final(self)),
            match final(self).mode {
                Mode::AddingAccount(f) => f@.name.len() == 0 && f@.api_token.len() == 0
                    && f@.email.len() == 0 && f@.account_id.len() == 0 && f@.field_index == 0,
                _ => false,
            },
            final(self).last_message@ == "Add a Cloudflare API token for this account"@,
    {
        self.mode = Mode::AddingAccount(AccountForm::default());
        self.last_message = "Add a Cloudflare API token for this account".to_owned();
    }

    /// Append a freshly built account, select it, close the modal, and
    /// refresh both dependent lists (the cascade is witnessed just before
    /// the added-account note overwrites the status text); the caller
    /// persists the account list from `save_accounts`.
    pub fn finish_add_account(&mut self, account: Account)
        requires
            old(self).wf(),
        ensures
            final(self).wf(),
            final(self).accounts@ == old(self).accounts@.push(account),
            final(self).selected_account == old(self).accounts@.len(),
            final(self).selected_zone == 0,
            final(self).mode is Normal,
            final(self).focus == old(self).focus,
            final(self).record_filter@ == old(self).record_filter@,
            final(self).record_page_size == old(self).record_page_size,
            final(self).last_message@ == "Added account "@ + account@.name,
            (final(self).backend.log() == old(self).backend.log().push(BackendOp::Zones) || final(self).backend.log() == old(self).backend.log() + seq![BackendOp::Zones, BackendOp::Records]),
            exists|mid: Self, refreshed: Self|
                {
                    &&& mid.backend == old(self).backend
                    &&& mid.zones@ == old(self).zones@
                    &&& mid.selected_zone == 0
                    &&& mid.records@ == old(self).records@
                    &&& mid.selected_record == old(self).selected_record
                    &&& mid.record_page == old(self).record_page
                    &&& #[trigger] Self::cascade_refreshed(mid, refreshed, account@)
                    &&& refreshed.backend == final(self).backend
                    &&& refreshed.zones@ == final(self).zones@
                    &&& refreshed.selected_zone == final(self).selected_zone
                    &&& refreshed.records@ == final(self).records@
                    &&& refreshed.selected_record == final(self).selected_record
                    &&& refreshed.record_page == final(self).record_page
                },
    {
        let name = account.name.clone();
        self.accounts.push(account);
        self.selected_account = self.accounts.len() - 1;
        self.selected_zone = 0;
        self.mode = Mode::Normal;
        let ghost mid = *self;
        self.refresh_current();
        let ghost refreshed = *self;
        proof {
            assert(mid.accounts@[mid.selected_account as int] == account);
            assert(Self::cascade_refreshed(mid, refreshed, account@));
        }
        let mut m = "Added account ".to_owned();
        m.append(name.as_str());
        self.last_message = m;
    }

    /// With no accounts configured the add-account modal cannot be left:
    /// cancelling it re-opens it at once.
    pub fn ensure_onboarding_prompt(&mut self)
        requires
            old(self).wf(),
        ensures
            final(self).wf(),
            old(self).accounts@.len() > 0 ==> *final(self) == *old(self),
            old(self).accounts@.len() == 0 ==> ({
                &&& Self::only_modal_changed(*old(self), *final(self))
                &&& match final(self).mode {
                    Mode::AddingAccount(f) => f@.name.len() == 0 && f@.api_token.len() == 0
                        && f@.email.len() == 0 && f@.account_id.len() == 0 && f@.field_index == 0,
                    _ => false,
                }
                &&& final(self).last_message@ == "Add a Cloudflare API token for this account"@
            }),
    {
        if self.accounts.len() == 0 {
            self.start_add_account();
        }
    }

    /// The record form stands open, freshly seeded: nothing but the modal
    /// and the status text changed, the cursor is on the first field, the
    /// draft and target come from the selected record when editing (a fresh
    /// draft otherwise), and the status text names the flow.
    pub open spec fn record_form_opened(pre: Self, post: Self, is_edit: bool) -> bool {
        &&& Self::only_modal_changed(pre, post)
        &&& match post.mode {
            Mode::RecordForm(f) => f.field_index == 0 && f.is_edit == is_edit && (match pre.current_record_spec() {
                Some(rv) => opt_view(f.target_id) == Some(rv.id) && f.draft@ == (if is_edit {
                    draft_of(rv)
                } else {
                    default_draft_view()
                }),
                None => f.target_id is None && f.draft@ == default_draft_view(),
            }),
            _ => false,
        }
        &&& post.last_message@ == (if is_edit {
            "Editing DNS record"@
        } else {
            "Create DNS record"@
        })
    }

    /// Open the record form, over a fresh draft or one seeded from the
    /// selected record when editing.
    pub fn start_record_form(&mut self, is_edit: bool)
        requires
            old(self).wf(),
        ensures
            final(self).wf(),
            Self::record_form_opened(*old(self), *final(self), is_edit),
    {
        let cur = self.current_record();
        let draft = if is_edit {
            match &cur {
                Some(rec) => RecordDraft::from_record(rec),
                None => RecordDraft::default(),
            }
        } else {
            RecordDraft::default()
        };
        let target_id = match &cur {
            Some(rec) => Some(rec.id.clone()),
            None => None,
        };
        proof {
            if draft@.name.len() == 0 {
                assert(draft@.name =~= Seq::<char>::empty());
            }
            if draft@.content.len() == 0 {
                assert(draft@.content =~= Seq::<char>::empty());
            }
        }
        self.mode = Mode::RecordForm(RecordForm { draft, field_index: 0, is_edit, target_id });
        self.last_message = if is_edit {
            "Editing DNS record".to_owned()
        } else {
            "Create DNS record".to_owned()
        };
    }

    /// Ask for confirmation before deleting the selected record; without a
    /// selection nothing happens.
    pub fn ask_delete_record(&mut self)
        requires
            old(self).wf(),
        ensures
            final(self).wf(),
            old(self).current_record_spec() is None ==> *final(self) == *old(self),
            match old(self).current_record_spec() {
                Some(rv) => {
                    &&& Self::only_modal_changed(*old(self), *final(self))
                    &&& match final(self).mode {
                        Mode::ConfirmDelete(c) => c.record_id@ == rv.id && c.record_name@
                            == rv.name,
                        _ => false,
                    }
                    &&& final(self).last_message@ == "Delete "@ + rv.name + "?"@
                },
                None => true,
            },
    {
        let cur = self.current_record();
        match cur {
            Some(record) => {
                let mut m = "Delete ".to_owned();
                m.append(record.name.as_str());
                m.append("?");
                self.mode = Mode::ConfirmDelete(
                    ConfirmDelete { record_id: record.id, record_name: record.name },
                );
                self.last_message = m;
            },
            None => {},
        }
    }

    /// The two possible endings of a create dispatched for the selected
    /// account and zone: on a failed dispatch only the status text changes
    /// and it carries the error; on a successful dispatch exactly one record
    /// refresh follows, ending as `records_outcome` says (selection and page
    /// at 0 when the refetch succeeded). Either way the modal is closed and
    /// the account and zone lists and selections are untouched.
    pub open spec fn create_outcome(pre: Self, post: Self, record: RecordView) -> bool {
        let account = pre.accounts@[pre.selected_account as int]@;
        let zone = pre.zones@[pre.selected_zone as int]@;
        &&& post.accounts@ == pre.accounts@
        &&& post.selected_account == pre.selected_account
        &&& post.zones@ == pre.zones@
        &&& post.selected_zone == pre.selected_zone
        &&& post.focus == pre.focus
        &&& post.record_filter@ == pre.record_filter@
        &&& post.record_page_size == pre.record_page_size
        &&& post.mode is Normal
        &&& ({
            ||| ({
                &&& post.backend.log() == pre.backend.log().push(BackendOp::Create)
                &&& post.records@ == pre.records@
                &&& post.selected_record == pre.selected_record
                &&& post.record_page == pre.record_page
                &&& exists|e: BackendError|
                    #[trigger] B::create_record_post(
                        pre.backend,
                        post.backend,
                        account,
                        zone,
                        record,
                        Err(e),
                    ) && post.last_message@ == e.message@
            })
            ||| exists|mid: Self|
                {
                    &&& mid.backend.log() == pre.backend.log().push(BackendOp::Create)
                    &&& exists|created: DnsRecord|
                        #[trigger] B::create_record_post(
                            pre.backend,
                            mid.backend,
                            account,
                            zone,
                            record,
                            Ok(created),
                        )
                    &&& mid.records@ == pre.records@
                    &&& mid.selected_record == pre.selected_record
                    &&& mid.record_page == pre.record_page
                    &&& #[trigger] Self::records_outcome(mid, post, account, zone)
                }
        })
    }

    /// The two possible endings of an update, shaped as `create_outcome`.
    pub open spec fn update_outcome(pre: Self, post: Self, record: RecordView) -> bool {
        let account = pre.accounts@[pre.selected_account as int]@;
        let zone = pre.zones@[pre.selected_zone as int]@;
        &&& post.accounts@ == pre.accounts@
        &&& post.selected_account == pre.selected_account
        &&& post.zones@ == pre.zones@
        &&& post.selected_zone == pre.selected_zone
        &&& post.focus == pre.focus
        &&& post.record_filter@ == pre.record_filter@
        &&& post.record_page_size == pre.record_page_size
        &&& post.mode is Normal
        &&& ({
            ||| ({
                &&& post.backend.log() == pre.backend.log().push(BackendOp::Update)
                &&& post.records@ == pre.records@
                &&& post.selected_record == pre.selected_record
                &&& post.record_page == pre.record_page
                &&& exists|e: BackendError|
                    #[trigger] B::update_record_post(
                        pre.backend,
                        post.backend,
                        account,
                        zone,
                        record,
                        Err(e),
                    ) && post.last_message@ == e.message@
            })
            ||| exists|mid: Self|
                {
                    &&& mid.backend.log() == pre.backend.log().push(BackendOp::Update)
                    &&& exists|updated: DnsRecord|
                        #[trigger] B::update_record_post(
                            pre.backend,
                            mid.backend,
                            account,
                            zone,
                            record,
                            Ok(updated),
                        )
                    &&& mid.records@ == pre.records@
                    &&& mid.selected_record == pre.selected_record
                    &&& mid.record_page == pre.record_page
                    &&& #[trigger] Self::records_outcome(mid, post, account, zone)
                }
        })
    }

    /// The two possible endings of a delete, shaped as `create_outcome`; the
    /// modal is the caller's, so nothing is said of the mode.
    pub open spec fn delete_outcome(pre: Self, post: Self, record_id: Seq<char>) -> bool {
        let account = pre.accounts@[pre.selected_account as int]@;
        let zone = pre.zones@[pre.selected_zone as int]@;
        &&& post.accounts@ == pre.accounts@
        &&& post.selected_account == pre.selected_account
        &&& post.zones@ == pre.zones@
        &&& post.selected_zone == pre.selected_zone
        &&& post.focus == pre.focus
        &&& post.record_filter@ == pre.record_filter@
        &&& post.record_page_size == pre.record_page_size
        &&& ({
            ||| ({
                &&& post.backend.log() == pre.backend.log().push(BackendOp::Delete)
                &&& post.records@ == pre.records@
                &&& post.selected_record == pre.selected_record
                &&& post.record_page == pre.record_page
                &&& exists|e: BackendError|
                    #[trigger] B::delete_record_post(
                        pre.backend,
                        post.backend,
                        account,
                        zone,
                        record_id,
                        Err(e),
                    ) && post.last_message@ == e.message@
            })
            ||| exists|mid: Self|
                {
                    &&& mid.backend.log() == pre.backend.log().push(BackendOp::Delete)
                    &&& B::delete_record_post(
                        pre.backend,
                        mid.backend,
                        account,
                        zone,
                        record_id,
                        Ok(()),
                    )
                    &&& mid.records@ == pre.records@
                    &&& mid.selected_record == pre.selected_record
                    &&& mid.record_page == pre.record_page
                    &&& #[trigger] Self::records_outcome(mid, post, account, zone)
                }
        })
    }

    /// Dispatch a create through the backend, then leave the modal and, when
    /// the call succeeded, refresh the record list.
    pub fn create_record(&mut self, record: DnsRecord)
        requires
            old(self).wf(),
        ensures
            final(self).wf(),
            (old(self).accounts@.len() == 0 || old(self).zones@.len() == 0) ==> *final(self)
                == *old(self),
            (old(self).accounts@.len() > 0 && old(self).zones@.len() > 0) ==> ({
                &&& Self::create_outcome(*old(self), *final(self), record@)
                &&& (final(self).backend.log() == old(self).backend.log() + seq![
                    BackendOp::Create,
                    BackendOp::Records,
                ] || final(self).backend.log() == old(self).backend.log().push(BackendOp::Create))
            }),
    {
        let account = match self.current_account() {
            Some(a) => Some(a.clone()),
            None => None,
        };
        let zone = match self.current_zone() {
            Some(z) => Some(z.clone()),
            None => None,
        };
        match (account, zone) {
            (Some(account), Some(zone)) => {
                let ghost pre_log = self.backend.log();
                let ghost account_v = old(self).accounts@[old(self).selected_account as int]@;
                let ghost zone_v = old(self).zones@[old(self).selected_zone as int]@;
                let r = self.backend.create_record(&account, &zone, record);
                match r {
                    Ok(created) => {
                        let mut m = "Created ".to_owned();
                        m.append(created.name.as_str());
                        self.last_message = m;
                        self.mode = Mode::Normal;
                        let ghost mid = *self;
                        self.refresh_records();
                        proof {
                            assert(B::create_record_post(
                                old(self).backend,
                                mid.backend,
                                account_v,
                                zone_v,
                                record@,
                                Ok(created),
                            ));
                            assert(Self::records_outcome(mid, *self, account_v, zone_v));
                            assert(pre_log.push(BackendOp::Create).push(BackendOp::Records)
                                =~= pre_log + seq![BackendOp::Create, BackendOp::Records]);
                        }
                    },
                    Err(e) => {
                        let ghost e_v = e;
                        self.last_message = e.message;
                        self.mode = Mode::Normal;
                        proof {
                            assert(B::create_record_post(
                                old(self).backend,
                                self.backend,
                                account_v,
                                zone_v,
                                record@,
                                Err(e_v),
                            ));
                        }
                    },
                }
            },
            _ => {},
        }
    }

    /// Dispatch an update through the backend, then leave the modal and, when
    /// the call succeeded, refresh the record list.
    pub fn update_record(&mut self, record: DnsRecord)
        requires
            old(self).wf(),
        ensures
            final(self).wf(),
            (old(self).accounts@.len() == 0 || old(self).zones@.len() == 0) ==> *final(self)
                == *old(self),
            (old(self).accounts@.len() > 0 && old(self).zones@.len() > 0) ==> ({
                &&& Self::update_outcome(*old(self), *final(self), record@)
                &&& (final(self).backend.log() == old(self).backend.log() + seq![
                    BackendOp::Update,
                    BackendOp::Records,
                ] || final(self).backend.log() == old(self).backend.log().push(BackendOp::Update))
            }),
    {
        let account = match self.current_account() {
            Some(a) => Some(a.clone()),
            None => None,
        };
        let zone = match self.current_zone() {
            Some(z) => Some(z.clone()),
            None => None,
        };
        match (account, zone) {
            (Some(account), Some(zone)) => {
                let ghost pre_log = self.backend.log();
                let ghost account_v = old(self).accounts@[old(self).selected_account as int]@;
                let ghost zone_v = old(self).zones@[old(self).selected_zone as int]@;
                let r = self.backend.update_record(&account, &zone, record);
                match r {
                    Ok(updated) => {
                        let mut m = "Updated ".to_owned();
                        m.append(updated.name.as_str());
                        self.last_message = m;
                        self.mode = Mode::Normal;
                        let ghost mid = *self;
                        self.refresh_records();
                        proof {
                            assert(B::update_record_post(
                                old(self).backend,
                                mid.backend,
                                account_v,
                                zone_v,
                                record@,
                                Ok(updated),
                            ));
                            assert(Self::records_outcome(mid, *self, account_v, zone_v));
                            assert(pre_log.push(BackendOp::Update).push(BackendOp::Records)
                                =~= pre_log + seq![BackendOp::Update, BackendOp::Records]);
                        }
                    },
                    Err(e) => {
                        let ghost e_v = e;
                        self.last_message = e.message;
                        self.mode = Mode::Normal;
                        proof {
                            assert(B::update_record_post(
                                old(self).backend,
                                self.backend,
                                account_v,
                                zone_v,
                                record@,
                                Err(e_v),
                            ));
                        }
                    },
                }
            },
            _ => {},
        }
    }

    /// Dispatch a delete through the backend and, when the call succeeded,
    /// refresh the record list; the modal is the caller's to close.
    pub fn delete_record(&mut self, record_id: String)
        requires
            old(self).wf(),
        ensures
            final(self).wf(),
            (old(self).accounts@.len() == 0 || old(self).zones@.len() == 0) ==> *final(self)
                == *old(self),
            (old(self).accounts@.len() > 0 && old(self).zones@.len() > 0) ==> ({
                &&& Self::delete_outcome(*old(self), *final(self), record_id@)
                &&& final(self).mode == old(self).mode
                &&& (final(self).backend.log() == old(self).backend.log() + seq![
                    BackendOp::Delete,
                    BackendOp::Records,
                ] || final(self).backend.log() == old(self).backend.log().push(BackendOp::Delete))
            }),
    {
        let account = match self.current_account() {
            Some(a) => Some(a.clone()),
            None => None,
        };
        let zone = match self.current_zone() {
            Some(z) => Some(z.clone()),
            None => None,
        };
        match (account, zone) {
            (Some(account), Some(zone)) => {
                let ghost pre_log = self.backend.log();
                let ghost account_v = old(self).accounts@[old(self).selected_account as int]@;
                let ghost zone_v = old(self).zones@[old(self).selected_zone as int]@;
                let r = self.backend.delete_record(&account, &zone, record_id.as_str());
                match r {
                    Ok(u) => {
                        self.last_message = "Record deleted".to_owned();
                        let ghost mid = *self;
                        self.refresh_records();
                        proof {
                            assert(u == ());
                            assert(B::delete_record_post(
                                old(self).backend,
                                mid.backend,
                                account_v,
                                zone_v,
                                record_id@,
                                Ok(()),
                            ));
                            assert(Self::records_outcome(mid, *self, account_v, zone_v));
                            assert(pre_log.push(BackendOp::Delete).push(BackendOp::Records)
                                =~= pre_log + seq![BackendOp::Delete, BackendOp::Records]);
                        }
                    },
                    Err(e) => {
                        let ghost e_v = e;
                        self.last_message = e.message;
                        proof {
                            assert(B::delete_record_post(
                                old(self).backend,
                                self.backend,
                                account_v,
                                zone_v,
                                record_id@,
                                Err(e_v),
                            ));
                        }
                    },
                }
            },
            _ => {},
        }
    }
}

/// The next list in focus order: accounts, zones, records, and around.
pub open spec fn focus_next(f: Focus) -> Focus {
    match f {
        Focus::Accounts => Focus::Zones,
        Focus::Zones => Focus::Records,
        Focus::Records => Focus::Accounts,
    }
}

/// The previous list in focus order.
pub open spec fn focus_back(f: Focus) -> Focus {
    match f {
        Focus::Accounts => Focus::Records,
        Focus::Zones => Focus::Accounts,
        Focus::Records => Focus::Zones,
    }
}

/// The fixed help line shown above the status detail.
pub open spec fn help_line() -> Seq<char> {
    "q: quit  a: add account  r: refresh  Tab/Shift+Tab: focus  ↑/↓: move  /: search  n/e/d: new/edit/del  PgUp/PgDn: pages"@
}

/// The effective page size derived from the display height: the rows left
/// after the table header and borders, and never below one.
pub open spec fn derived_page_size(area_height: int) -> int {
    if area_height >= 4 {
        area_height - 3
    } else {
        1
    }
}

/// Moving the page onto the selection twice is the same as moving it once:
/// the destination page depends only on the selection, the page size, and the
/// filtered total, none of which the move itself changes.
pub proof fn lemma_ensure_visible_idempotent<B: DnsBackend>(
    a: App<B>,
    b: App<B>,
    c: App<B>,
    total: int,
)
    requires
        App::<B>::ensure_visible_rel(a, b, total),
        App::<B>::ensure_visible_rel(b, c, total),
    ensures
        c == b,
{
}

} // verus!
