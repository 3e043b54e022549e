//! The backend contract: five operations that any provider adapter offers,
//! together with a ghost trace of the calls made through it.
use vstd::prelude::*;
use crate::model::{Account, AccountView, DnsRecord, RecordView, Zone, ZoneView};

verus! {

/// One call through the backend contract, as recorded in the ghost trace.
pub enum BackendOp {
    Zones,
    Records,
    Create,
    Update,
    Delete,
}

/// A failed backend operation, with the text shown to the user.
#[derive(Debug)]
pub struct BackendError {
    pub message: String,
}

impl Clone for BackendError {
    fn clone(&self) -> (r: Self)
        ensures
            r == *self,
    {
        BackendError { message: self.message.clone() }
    }
}

/// The backend contract. Every operation appends exactly one entry to the
/// ghost call trace, and each adapter pins down its own behaviour through the
/// `..._post` predicates.
pub trait DnsBackend: Sized {
    /// The ghost trace of calls made so far. Verified adapters override
    /// this; an adapter outside the verified world may leave the default.
    open spec fn log(&self) -> Seq<BackendOp> {
        Seq::empty()
    }

    /// What this adapter promises of a zone-list call.
    open spec fn list_zones_post(
        pre: Self,
        post: Self,
        account: AccountView,
        r: Result<Vec<Zone>, BackendError>,
    ) -> bool {
        true
    }

    /// What this adapter promises of a record-list call.
    open spec fn list_records_post(
        pre: Self,
        post: Self,
        account: AccountView,
        zone: ZoneView,
        r: Result<Vec<DnsRecord>, BackendError>,
    ) -> bool {
        true
    }

    /// What this adapter promises of a create call.
    open spec fn create_record_post(
        pre: Self,
        post: Self,
        account: AccountView,
        zone: ZoneView,
        record: RecordView,
        r: Result<DnsRecord, BackendError>,
    ) -> bool {
        true
    }

    /// What this adapter promises of an update call.
    open spec fn update_record_post(
        pre: Self,
        post: Self,
        account: AccountView,
        zone: ZoneView,
        record: RecordView,
        r: Result<DnsRecord, BackendError>,
    ) -> bool {
        true
    }

    /// What this adapter promises of a delete call.
    open spec fn delete_record_post(
        pre: Self,
        post: Self,
        account: AccountView,
        zone: ZoneView,
        record_id: Seq<char>,
        r: Result<(), BackendError>,
    ) -> bool {
        true
    }

    /// List the zones visible to `account`.
    fn list_zones(&mut self, account: &Account) -> (r: Result<Vec<Zone>, BackendError>)
        ensures
            final(self).log() == old(self).log().push(BackendOp::Zones),
            Self::list_zones_post(*old(self), *final(self), account@, r),
    ;

    /// List the records of `zone`.
    fn list_records(&mut self, account: &Account, zone: &Zone) -> (r: Result<
        Vec<DnsRecord>,
        BackendError,
    >)
        ensures
            final(self).log() == old(self).log().push(BackendOp::Records),
            Self::list_records_post(*old(self), *final(self), account@, zone@, r),
    ;

    /// Create `record` in `zone`; the adapter assigns the stored id.
    fn create_record(&mut self, account: &Account, zone: &Zone, record: DnsRecord) -> (r: Result<
        DnsRecord,
        BackendError,
    >)
        ensures
            final(self).log() == old(self).log().push(BackendOp::Create),
            Self::create_record_post(*old(self), *final(self), account@, zone@, record@, r),
    ;

    /// Replace the record with the same id in `zone` by `record`.
    fn update_record(&mut self, account: &Account, zone: &Zone, record: DnsRecord) -> (r: Result<
        DnsRecord,
        BackendError,
    >)
        ensures
            final(self).log() == old(self).log().push(BackendOp::Update),
            Self::update_record_post(*old(self), *final(self), account@, zone@, record@, r),
    ;

    /// Delete the record with id `record_id` from `zone`.
    fn delete_record(&mut self, account: &Account, zone: &Zone, record_id: &str) -> (r: Result<
        (),
        BackendError,
    >)
        ensures
            final(self).log() == old(self).log().push(BackendOp::Delete),
            Self::delete_record_post(*old(self), *final(self), account@, zone@, record_id@, r),
    ;
}

} // verus!
