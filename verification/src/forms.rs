//! The modal editing forms: the add-account form, the record draft and form,
//! and the pending-delete confirmation payload.
use vstd::prelude::*;
use crate::model::{Account, AuthMode, DnsRecord, RecordView};
use crate::text::{
    dec_rep, drop_last_char, is_blank, parse_u32, parse_u32_spec, pop_char, push_char, trim_spec,
    trimmed, u32_to_string,
};

verus! {

/// The four-field add-account form with a cursor over its fields.
pub struct AccountForm {
    pub name: String,
    pub api_token: String,
    pub email: String,
    pub account_id: String,
    pub field_index: usize,
}

/// Ghost-level image of an `AccountForm`.
pub struct AccountFormView {
    pub name: Seq<char>,
    pub api_token: Seq<char>,
    pub email: Seq<char>,
    pub account_id: Seq<char>,
    pub field_index: usize,
}

impl View for AccountForm {
    type V = AccountFormView;

    open spec fn view(&self) -> AccountFormView {
        AccountFormView {
            name: self.name@,
            api_token: self.api_token@,
            email: self.email@,
            account_id: self.account_id@,
            field_index: self.field_index,
        }
    }
}

impl Clone for AccountForm {
    fn clone(&self) -> (r: Self)
        ensures
            r == *self,
    {
        AccountForm {
            name: self.name.clone(),
            api_token: self.api_token.clone(),
            email: self.email.clone(),
            account_id: self.account_id.clone(),
            field_index: self.field_index,
        }
    }
}

impl Default for AccountForm {
    /// An empty form with the cursor on the first field.
    fn default() -> (r: Self)
        ensures
            r@.name.len() == 0,
            r@.api_token.len() == 0,
            r@.email.len() == 0,
            r@.account_id.len() == 0,
            r@.field_index == 0,
    {
        AccountForm {
            name: String::new(),
            api_token: String::new(),
            email: String::new(),
            account_id: String::new(),
            field_index: 0,
        }
    }
}

/// The text of the form field the cursor is on: name, token, email, and any
/// further position meaning the account id.
pub open spec fn active_field(f: AccountFormView) -> Seq<char> {
    if f.field_index == 0 {
        f.name
    } else if f.field_index == 1 {
        f.api_token
    } else if f.field_index == 2 {
        f.email
    } else {
        f.account_id
    }
}

/// The form with the text of the active field replaced by `v`.
pub open spec fn with_active_field(f: AccountFormView, v: Seq<char>) -> AccountFormView {
    if f.field_index == 0 {
        AccountFormView { name: v, ..f }
    } else if f.field_index == 1 {
        AccountFormView { api_token: v, ..f }
    } else if f.field_index == 2 {
        AccountFormView { email: v, ..f }
    } else {
        AccountFormView { account_id: v, ..f }
    }
}

/// Both required fields (name and token) hold something besides whitespace.
pub open spec fn form_ready(f: AccountFormView) -> bool {
    trim_spec(f.name).len() > 0 && trim_spec(f.api_token).len() > 0
}

impl AccountForm {
    /// The field the cursor is on, for editing in place.
    pub fn active_value_mut(&mut self) -> (r: &mut String)
        ensures
            r@ == active_field(old(self)@),
            final(self)@ == with_active_field(old(self)@, final(r)@),
    {
        match self.field_index {
            0 => &mut self.name,
            1 => &mut self.api_token,
            2 => &mut self.email,
            _ => &mut self.account_id,
        }
    }

    /// Move the cursor one field down, stopping at the last field.
    pub fn next_field(&mut self)
        ensures
            final(self)@ == (AccountFormView {
                field_index: if old(self)@.field_index < 3 {
                    (old(self)@.field_index + 1) as usize
                } else {
                    3
                },
                ..old(self)@
            }),
    {
        self.field_index = if self.field_index < 3 {
            self.field_index + 1
        } else {
            3
        };
    }

    /// Move the cursor one field up, stopping at the first field.
    pub fn previous_field(&mut self)
        ensures
            final(self)@ == (AccountFormView {
                field_index: if old(self)@.field_index == 0 {
                    0
                } else {
                    (old(self)@.field_index - 1) as usize
                },
                ..old(self)@
            }),
    {
        if self.field_index == 0 {
            self.field_index = 0;
        } else {
            self.field_index = self.field_index - 1;
        }
    }

    /// Append a typed character to the active field.
    pub fn insert_char(&mut self, c: char)
        ensures
            final(self)@ == with_active_field(old(self)@, active_field(old(self)@).push(c)),
    {
        push_char(self.active_value_mut(), c);
    }

    /// Delete the last character of the active field, if any.
    pub fn backspace(&mut self)
        ensures
            final(self)@ == with_active_field(
                old(self)@,
                drop_last_char(active_field(old(self)@)),
            ),
    {
        pop_char(self.active_value_mut());
    }

    /// Whether the required fields are filled in.
    pub fn is_ready(&self) -> (r: bool)
        ensures
            r == form_ready(self@),
    {
        !is_blank(self.name.as_str()) && !is_blank(self.api_token.as_str())
    }

    /// Materialize the form into an `Account`: required fields must be
    /// present; optional fields become `None` when blank; every field is
    /// trimmed; new accounts always authenticate by token.
    pub fn build_account(&self) -> (r: Result<Account, &'static str>)
        ensures
            match r {
                Ok(a) => form_ready(self@) && a@.name == trim_spec(self@.name)
                    && a@.api_token == trim_spec(self@.api_token) && a@.email == (if trim_spec(
                    self@.email,
                ).len() == 0 {
                    None
                } else {
                    Some(trim_spec(self@.email))
                }) && a@.account_id == (if trim_spec(self@.account_id).len() == 0 {
                    None
                } else {
                    Some(trim_spec(self@.account_id))
                }) && a@.auth_mode == AuthMode::Token,
                Err(m) => !form_ready(self@) && m@ == "Name and API token are required"@,
            },
    {
        if !self.is_ready() {
            return Err("Name and API token are required");
        }
        let email = trimmed(self.email.as_str());
        let account_id = trimmed(self.account_id.as_str());
        Ok(
            Account {
                name: trimmed(self.name.as_str()),
                api_token: trimmed(self.api_token.as_str()),
                email: if email.as_str().is_empty() {
                    None
                } else {
                    Some(email)
                },
                account_id: if account_id.as_str().is_empty() {
                    None
                } else {
                    Some(account_id)
                },
                auth_mode: AuthMode::Token,
            },
        )
    }
}

/// The editable draft behind the record form; `ttl` stays text until the form
/// is submitted.
pub struct RecordDraft {
    pub name: String,
    pub record_type: String,
    pub content: String,
    pub ttl: String,
    pub proxied: bool,
}

/// Ghost-level image of a `RecordDraft`.
pub struct RecordDraftView {
    pub name: Seq<char>,
    pub record_type: Seq<char>,
    pub content: Seq<char>,
    pub ttl: Seq<char>,
    pub proxied: bool,
}

impl View for RecordDraft {
    type V = RecordDraftView;

    open spec fn view(&self) -> RecordDraftView {
        RecordDraftView {
            name: self.name@,
            record_type: self.record_type@,
            content: self.content@,
            ttl: self.ttl@,
            proxied: self.proxied,
        }
    }
}

/// The draft a fresh record form starts from.
pub open spec fn default_draft_view() -> RecordDraftView {
    RecordDraftView {
        name: Seq::<char>::empty(),
        record_type: "A"@,
        content: Seq::<char>::empty(),
        ttl: "300"@,
        proxied: true,
    }
}

/// The draft seeded from an existing record for editing.
pub open spec fn draft_of(r: RecordView) -> RecordDraftView {
    RecordDraftView {
        name: r.name,
        record_type: r.record_type,
        content: r.content,
        ttl: dec_rep(r.ttl as int),
        proxied: r.proxied,
    }
}

impl Clone for RecordDraft {
    fn clone(&self) -> (r: Self)
        ensures
            r == *self,
    {
        RecordDraft {
            name: self.name.clone(),
            record_type: self.record_type.clone(),
            content: self.content.clone(),
            ttl: self.ttl.clone(),
            proxied: self.proxied,
        }
    }
}

impl Default for RecordDraft {
    /// A fresh draft: an address record, five-minute TTL, proxied.
    fn default() -> (r: Self)
        ensures
            r@.name.len() == 0,
            r@.record_type == "A"@,
            r@.content.len() == 0,
            r@.ttl == "300"@,
            r@.proxied == true,
    {
        RecordDraft {
            name: String::new(),
            record_type: "A".to_owned(),
            content: String::new(),
            ttl: "300".to_owned(),
            proxied: true,
        }
    }
}

impl RecordDraft {
    /// Seed a draft from an existing record, for editing.
    pub fn from_record(record: &DnsRecord) -> (r: Self)
        ensures
            r@.name == record@.name,
            r@.record_type == record@.record_type,
            r@.content == record@.content,
            r@.ttl == dec_rep(record@.ttl as int),
            r@.proxied == record@.proxied,
    {
        RecordDraft {
            name: record.name.clone(),
            record_type: record.record_type.clone(),
            content: record.content.clone(),
            ttl: u32_to_string(record.ttl),
            proxied: record.proxied,
        }
    }

    /// Materialize the draft into a record carrying `id`: the TTL text must
    /// parse as an unsigned number and name and type must not be blank; all
    /// text fields are trimmed.
    pub fn to_record(&self, id: String) -> (r: Result<DnsRecord, &'static str>)
        ensures
            match r {
                Ok(rec) => parse_u32_spec(trim_spec(self@.ttl)) is Some && trim_spec(
                    self@.name,
                ).len() > 0 && trim_spec(self@.record_type).len() > 0 && rec@ == (RecordView {
                    id: id@,
                    name: trim_spec(self@.name),
                    record_type: trim_spec(self@.record_type),
                    content: trim_spec(self@.content),
                    ttl: parse_u32_spec(trim_spec(self@.ttl)).unwrap(),
                    proxied: self@.proxied,
                }),
                Err(m) => if parse_u32_spec(trim_spec(self@.ttl)) is None {
                    m@ == "TTL must be a number"@
                } else {
                    (trim_spec(self@.name).len() == 0 || trim_spec(self@.record_type).len() == 0)
                        && m@ == "Name and type are required"@
                },
            },
    {
        let ttl_text = trimmed(self.ttl.as_str());
        let ttl = match parse_u32(ttl_text.as_str()) {
            Some(v) => v,
            None => {
                return Err("TTL must be a number");
            },
        };
        if is_blank(self.name.as_str()) || is_blank(self.record_type.as_str()) {
            return Err("Name and type are required");
        }
        Ok(
            DnsRecord {
                id,
                name: trimmed(self.name.as_str()),
                record_type: trimmed(self.record_type.as_str()),
                content: trimmed(self.content.as_str()),
                ttl,
                proxied: self.proxied,
            },
        )
    }
}

/// The five-field record form: a draft, a cursor, whether this is an edit, and
/// the id of the record being edited.
pub struct RecordForm {
    pub draft: RecordDraft,
    pub field_index: usize,
    pub is_edit: bool,
    pub target_id: Option<String>,
}

impl Clone for RecordForm {
    fn clone(&self) -> (r: Self)
        ensures
            r == *self,
    {
        RecordForm {
            draft: self.draft.clone(),
            field_index: self.field_index,
            is_edit: self.is_edit,
            target_id: match &self.target_id {
                Some(t) => Some(t.clone()),
                None => None,
            },
        }
    }
}

/// The id and display name of the record awaiting delete confirmation.
pub struct ConfirmDelete {
    pub record_id: String,
    pub record_name: String,
}

impl Clone for ConfirmDelete {
    fn clone(&self) -> (r: Self)
        ensures
            r == *self,
    {
        ConfirmDelete {
            record_id: self.record_id.clone(),
            record_name: self.record_name.clone(),
        }
    }
}

} // verus!
