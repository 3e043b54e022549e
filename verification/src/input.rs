//! Key handling: one dispatcher and one handler per interaction mode, each a
//! pure transition from the current state and a key to the next state.
use vstd::prelude::*;
use crate::backend::DnsBackend;
use crate::controller::{focus_back, focus_next, App, Focus, Mode};
use crate::forms::{
    active_field, form_ready, with_active_field, AccountFormView, RecordDraftView, RecordForm,
};
use crate::model::{opt_view, RecordView};
use crate::text::{drop_last_char, parse_u32_spec, pop_char, push_char, trim_spec};

verus! {

/// One keyboard input, as the handlers see it.
#[derive(Clone, Copy, PartialEq, Eq, Structural, Debug)]
pub enum Key {
    Char(char),
    Enter,
    Esc,
    Tab,
    BackTab,
    Up,
    Down,
    PageUp,
    PageDown,
    Backspace,
    Other,
}

/// The add-account modal is open with exactly this form, and nothing else
/// changed.
pub open spec fn adding_with<B: DnsBackend>(pre: App<B>, post: App<B>, f: AccountFormView) -> bool {
    &&& App::only_modal_changed(pre, post)
    &&& post.last_message@ == pre.last_message@
    &&& match post.mode {
        Mode::AddingAccount(f2) => f2@ == f,
        _ => false,
    }
}

/// The record form is open with exactly this draft and cursor, and nothing
/// else changed.
pub open spec fn editing_with<B: DnsBackend>(
    pre: App<B>,
    post: App<B>,
    draft: RecordDraftView,
    field_index: usize,
    is_edit: bool,
    target: Option<Seq<char>>,
) -> bool {
    &&& App::only_modal_changed(pre, post)
    &&& post.last_message@ == pre.last_message@
    &&& match post.mode {
        Mode::RecordForm(f2) => f2.draft@ == draft && f2.field_index == field_index && f2.is_edit
            == is_edit && opt_view(f2.target_id) == target,
        _ => false,
    }
}

/// The search overlay is open with exactly this buffer, and nothing else
/// changed.
pub open spec fn searching_with<B: DnsBackend>(pre: App<B>, post: App<B>, t: Seq<char>) -> bool {
    &&& App::only_modal_changed(pre, post)
    &&& post.last_message@ == pre.last_message@
    &&& match post.mode {
        Mode::Searching(t2) => t2@ == t,
        _ => false,
    }
}

/// The draft with `c` typed into the field the cursor is on; the proxied
/// toggle takes no text.
pub open spec fn draft_insert(d: RecordDraftView, field_index: usize, c: char) -> RecordDraftView {
    if field_index == 0 {
        RecordDraftView { name: d.name.push(c), ..d }
    } else if field_index == 1 {
        RecordDraftView { record_type: d.record_type.push(c), ..d }
    } else if field_index == 2 {
        RecordDraftView { content: d.content.push(c), ..d }
    } else if field_index == 3 {
        RecordDraftView { ttl: d.ttl.push(c), ..d }
    } else {
        d
    }
}

/// The draft with the last character of the field the cursor is on removed.
pub open spec fn draft_backspace(d: RecordDraftView, field_index: usize) -> RecordDraftView {
    if field_index == 0 {
        RecordDraftView { name: drop_last_char(d.name), ..d }
    } else if field_index == 1 {
        RecordDraftView { record_type: drop_last_char(d.record_type), ..d }
    } else if field_index == 2 {
        RecordDraftView { content: drop_last_char(d.content), ..d }
    } else if field_index == 3 {
        RecordDraftView { ttl: drop_last_char(d.ttl), ..d }
    } else {
        d
    }
}

/// Keys in normal mode: quit, refresh, open a modal, move the focus, or move
/// a selection.
pub fn handle_normal_key<B: DnsBackend>(key: Key, app: &mut App<B>) -> (quit: bool)
    requires
        old(app).wf(),
    ensures
        final(app).wf(),
        quit == (key == Key::Char('q')),
        key == Key::Char('q') ==> *final(app) == *old(app),
        key == Key::Char('a') ==> App::only_modal_changed(*old(app), *final(app)) && match final(app).mode {
            Mode::AddingAccount(f) => f@.name.len() == 0 && f@.api_token.len() == 0 && f@.email.len()
                == 0 && f@.account_id.len() == 0 && f@.field_index == 0,
            _ => false,
        },
        key == Key::Char('/') ==> App::only_modal_changed(*old(app), *final(app)) && final(app).last_message@ == old(app).last_message@ && match final(app).mode {
            Mode::Searching(t) => t@ == old(app).record_filter@,
            _ => false,
        },
        key == Key::Char('n') ==> App::record_form_opened(*old(app), *final(app), false),
        key == Key::Char('e') ==> App::record_form_opened(*old(app), *final(app), true),
        key == Key::Char('d') ==> (match old(app).current_record_spec() {
            Some(rv) => App::only_modal_changed(*old(app), *final(app)) && match final(app).mode {
                Mode::ConfirmDelete(c) => c.record_id@ == rv.id && c.record_name@ == rv.name,
                _ => false,
            },
            None => *final(app) == *old(app),
        }),
        key == Key::Char('r') ==> App::refresh_keeps_frame(*old(app), *final(app)),
        key == Key::Tab ==> *final(app) == (App { focus: focus_next(old(app).focus), ..*old(app) }),
        key == Key::BackTab ==> *final(app) == (App {
            focus: focus_back(old(app).focus),
            ..*old(app)
        }),
        (key == Key::Up || key == Key::Down || key == Key::PageUp || key == Key::PageDown) ==> ({
            &&& final(app).mode == old(app).mode
            &&& final(app).focus == old(app).focus
            &&& final(app).record_filter@ == old(app).record_filter@
            &&& final(app).accounts@ == old(app).accounts@
            &&& final(app).record_page_size == old(app).record_page_size
        }),
        (key == Key::Enter || key == Key::Esc || key == Key::Backspace || key == Key::Other)
            ==> *final(app) == *old(app),
{
    match key {
        Key::Char(c) => {
            if c == 'q' {
                return true;
            } else if c == 'r' {
                app.refresh_current();
            } else if c == 'a' {
                app.start_add_account();
            } else if c == '/' {
                app.mode = Mode::Searching(app.record_filter.clone());
            } else if c == 'n' {
                app.start_record_form(false);
            } else if c == 'e' {
                app.start_record_form(true);
            } else if c == 'd' {
                app.ask_delete_record();
            }
        },
        Key::BackTab => {
            app.focus = match app.focus {
                Focus::Accounts => Focus::Records,
                Focus::Zones => Focus::Accounts,
                Focus::Records => Focus::Zones,
            };
        },
        Key::Tab => {
            app.focus = match app.focus {
                Focus::Accounts => Focus::Zones,
                Focus::Zones => Focus::Records,
                Focus::Records => Focus::Accounts,
            };
        },
        Key::Up => {
            match app.focus {
                Focus::Accounts => app.previous_account(),
                Focus::Zones => app.previous_zone(),
                Focus::Records => app.previous_record(),
            }
        },
        Key::Down => {
            match app.focus {
                Focus::Accounts => app.next_account(),
                Focus::Zones => app.next_zone(),
                Focus::Records => app.next_record(),
            }
        },
        Key::PageDown => {
            app.next_page();
        },
        Key::PageUp => {
            app.previous_page();
        },
        _ => {},
    }
    false
}

/// Keys in the add-account modal: edit the form, move the cursor, submit, or
/// cancel; with no account configured a cancel re-opens the form.
pub fn handle_add_account_key<B: DnsBackend>(key: Key, app: &mut App<B>) -> (quit: bool)
    requires
        old(app).wf(),
    ensures
        final(app).wf(),
        !quit,
        !(old(app).mode is AddingAccount) ==> *final(app) == *old(app),
        match old(app).mode {
            Mode::AddingAccount(form) => {
                &&& (key == Key::Esc ==> (if old(app).accounts@.len() > 0 {
                    App::only_modal_changed(*old(app), *final(app)) && final(app).mode is Normal
                        && final(app).last_message@ == old(app).last_message@
                } else {
                    App::only_modal_changed(*old(app), *final(app)) && match final(app).mode {
                        Mode::AddingAccount(f) => f@.name.len() == 0 && f@.api_token.len() == 0
                            && f@.email.len() == 0 && f@.account_id.len() == 0 && f@.field_index
                            == 0,
                        _ => false,
                    }
                }))
                &&& ((key == Key::Tab || key == Key::Down) ==> adding_with(
                    *old(app),
                    *final(app),
                    AccountFormView {
                        field_index: if form@.field_index < 3 {
                            (form@.field_index + 1) as usize
                        } else {
                            3
                        },
                        ..form@
                    },
                ))
                &&& ((key == Key::BackTab || key == Key::Up) ==> adding_with(
                    *old(app),
                    *final(app),
                    AccountFormView {
                        field_index: if form@.field_index == 0 {
                            0
                        } else {
                            (form@.field_index - 1) as usize
                        },
                        ..form@
                    },
                ))
                &&& (key == Key::Backspace ==> adding_with(
                    *old(app),
                    *final(app),
                    with_active_field(form@, drop_last_char(active_field(form@))),
                ))
                &&& (match key {
                    Key::Char(c) => adding_with(
                        *old(app),
                        *final(app),
                        with_active_field(form@, active_field(form@).push(c)),
                    ),
                    _ => true,
                })
                &&& ((key == Key::Enter && form@.field_index < 3) ==> adding_with(
                    *old(app),
                    *final(app),
                    AccountFormView { field_index: (form@.field_index + 1) as usize, ..form@ },
                ))
                &&& ((key == Key::Enter && form@.field_index >= 3 && !form_ready(form@)) ==> ({
                    &&& App::only_modal_changed(*old(app), *final(app))
                    &&& final(app).mode == old(app).mode
                    &&& final(app).last_message@ == "Name and API token are required"@
                }))
                &&& ((key == Key::Enter && form@.field_index >= 3 && form_ready(form@)) ==> ({
                    &&& final(app).accounts@.len() == old(app).accounts@.len() + 1
                    &&& final(app).accounts@.subrange(0, old(app).accounts@.len() as int) == old(app).accounts@
                    &&& final(app).accounts@.last()@.name == trim_spec(form@.name)
                    &&& final(app).accounts@.last()@.api_token == trim_spec(form@.api_token)
                    &&& final(app).selected_account == old(app).accounts@.len()
                    &&& final(app).selected_zone == 0
                    &&& final(app).mode is Normal
                }))
                &&& (key == Key::Other ==> *final(app) == *old(app))
            },
            _ => true,
        },
{
    let form = match &app.mode {
        Mode::AddingAccount(f) => f.clone(),
        _ => {
            return false;
        },
    };
    match key {
        Key::Esc => {
            app.mode = Mode::Normal;
            app.ensure_onboarding_prompt();
        },
        Key::Enter => {
            if form.field_index < 3 {
                let mut f = form;
                f.next_field();
                app.mode = Mode::AddingAccount(f);
            } else {
                match form.build_account() {
                    Ok(account) => {
                        app.finish_add_account(account);
                    },
                    Err(msg) => {
                        app.last_message = msg.to_owned();
                    },
                }
            }
        },
        Key::Tab | Key::Down => {
            let mut f = form;
            f.next_field();
            app.mode = Mode::AddingAccount(f);
        },
        Key::BackTab | Key::Up => {
            let mut f = form;
            f.previous_field();
            app.mode = Mode::AddingAccount(f);
        },
        Key::Backspace => {
            let mut f = form;
            f.backspace();
            app.mode = Mode::AddingAccount(f);
        },
        Key::Char(c) => {
            let mut f = form;
            f.insert_char(c);
            app.mode = Mode::AddingAccount(f);
        },
        _ => {},
    }
    false
}

/// Keys in the record form: edit the draft, move the cursor, toggle the proxy
/// flag, submit, or cancel.
pub fn handle_record_form_key<B: DnsBackend>(key: Key, app: &mut App<B>) -> (quit: bool)
    requires
        old(app).wf(),
    ensures
        final(app).wf(),
        !quit,
        !(old(app).mode is RecordForm) ==> *final(app) == *old(app),
        match old(app).mode {
            Mode::RecordForm(form) => {
                &&& (key == Key::Esc ==> ({
                    &&& App::only_modal_changed(*old(app), *final(app))
                    &&& final(app).mode is Normal
                    &&& final(app).last_message@ == old(app).last_message@
                }))
                &&& ((key == Key::Tab || key == Key::Down) ==> editing_with(
                    *old(app),
                    *final(app),
                    form.draft@,
                    if form.field_index < 4 {
                        (form.field_index + 1) as usize
                    } else {
                        4
                    },
                    form.is_edit,
                    opt_view(form.target_id),
                ))
                &&& ((key == Key::BackTab || key == Key::Up) ==> editing_with(
                    *old(app),
                    *final(app),
                    form.draft@,
                    if form.field_index == 0 {
                        0
                    } else {
                        (form.field_index - 1) as usize
                    },
                    form.is_edit,
                    opt_view(form.target_id),
                ))
                &&& (match key {
                    Key::Char(c) => if c == ' ' && form.field_index == 4 {
                        editing_with(
                            *old(app),
                            *final(app),
                            RecordDraftView { proxied: !form.draft@.proxied, ..form.draft@ },
                            form.field_index,
                            form.is_edit,
                            opt_view(form.target_id),
                        )
                    } else {
                        editing_with(
                            *old(app),
                            *final(app),
                            draft_insert(form.draft@, form.field_index, c),
                            form.field_index,
                            form.is_edit,
                            opt_view(form.target_id),
                        )
                    },
                    _ => true,
                })
                &&& (key == Key::Backspace ==> editing_with(
                    *old(app),
                    *final(app),
                    draft_backspace(form.draft@, form.field_index),
                    form.field_index,
                    form.is_edit,
                    opt_view(form.target_id),
                ))
                &&& ((key == Key::Enter && form.field_index < 4) ==> editing_with(
                    *old(app),
                    *final(app),
                    form.draft@,
                    (form.field_index + 1) as usize,
                    form.is_edit,
                    opt_view(form.target_id),
                ))
                &&& ((key == Key::Enter && form.field_index >= 4 && (parse_u32_spec(
                    trim_spec(form.draft@.ttl),
                ) is None || trim_spec(form.draft@.name).len() == 0 || trim_spec(
                    form.draft@.record_type,
                ).len() == 0)) ==> ({
                    &&& App::only_modal_changed(*old(app), *final(app))
                    &&& final(app).mode == old(app).mode
                    &&& (final(app).last_message@ == "TTL must be a number"@ || final(app).last_message@ == "Name and type are required"@)
                }))
                &&& ((key == Key::Enter && form.field_index >= 4 && parse_u32_spec(
                    trim_spec(form.draft@.ttl),
                ) is Some && trim_spec(form.draft@.name).len() > 0 && trim_spec(
                    form.draft@.record_type,
                ).len() > 0) ==> (if old(app).accounts@.len() > 0 && old(app).zones@.len() > 0 {
                    ({
                        let rec = RecordView {
                            id: (match opt_view(form.target_id) {
                                Some(t) => t,
                                None => "new"@,
                            }),
                            name: trim_spec(form.draft@.name),
                            record_type: trim_spec(form.draft@.record_type),
                            content: trim_spec(form.draft@.content),
                            ttl: parse_u32_spec(trim_spec(form.draft@.ttl)).unwrap(),
                            proxied: form.draft@.proxied,
                        };
                        &&& (form.is_edit ==> App::update_outcome(*old(app), *final(app), rec))
                        &&& (!form.is_edit ==> App::create_outcome(*old(app), *final(app), rec))
                    })
                } else {
                    *final(app) == *old(app)
                }))
                &&& (key == Key::Other ==> *final(app) == *old(app))
            },
            _ => true,
        },
{
    let form = match &app.mode {
        Mode::RecordForm(f) => f.clone(),
        _ => {
            return false;
        },
    };
    match key {
        Key::Esc => {
            app.mode = Mode::Normal;
        },
        Key::Tab | Key::Down => {
            let mut f = form;
            f.field_index = if f.field_index < 4 {
                f.field_index + 1
            } else {
                4
            };
            app.mode = Mode::RecordForm(f);
        },
        Key::BackTab | Key::Up => {
            let mut f = form;
            if f.field_index > 0 {
                f.field_index = f.field_index - 1;
            }
            app.mode = Mode::RecordForm(f);
        },
        Key::Enter => {
            if form.field_index < 4 {
                let mut f = form;
                f.field_index = f.field_index + 1;
                app.mode = Mode::RecordForm(f);
            } else {
                let record_id = match &form.target_id {
                    Some(t) => t.clone(),
                    None => "new".to_owned(),
                };
                match form.draft.to_record(record_id) {
                    Ok(record) => {
                        if form.is_edit {
                            app.update_record(record);
                        } else {
                            app.create_record(record);
                        }
                    },
                    Err(err) => {
                        app.last_message = err.to_owned();
                    },
                }
            }
        },
        Key::Backspace => {
            let mut f = form;
            match f.field_index {
                0 => {
                    pop_char(&mut f.draft.name);
                },
                1 => {
                    pop_char(&mut f.draft.record_type);
                },
                2 => {
                    pop_char(&mut f.draft.content);
                },
                3 => {
                    pop_char(&mut f.draft.ttl);
                },
                _ => {},
            }
            app.mode = Mode::RecordForm(f);
        },
        Key::Char(c) => {
            let mut f = form;
            if c == ' ' && f.field_index == 4 {
                f.draft.proxied = !f.draft.proxied;
            } else {
                match f.field_index {
                    0 => {
                        push_char(&mut f.draft.name, c);
                    },
                    1 => {
                        push_char(&mut f.draft.record_type, c);
                    },
                    2 => {
                        push_char(&mut f.draft.content, c);
                    },
                    3 => {
                        push_char(&mut f.draft.ttl, c);
                    },
                    _ => {},
                }
            }
            app.mode = Mode::RecordForm(f);
        },
        _ => {},
    }
    false
}

/// Keys while a delete awaits confirmation: confirm, cancel, or still quit.
pub fn handle_confirm_delete_key<B: DnsBackend>(key: Key, app: &mut App<B>) -> (quit: bool)
    requires
        old(app).wf(),
    ensures
        final(app).wf(),
        !(old(app).mode is ConfirmDelete) ==> (!quit && *final(app) == *old(app)),
        match old(app).mode {
            Mode::ConfirmDelete(c) => {
                &&& quit == (key == Key::Char('q'))
                &&& (key == Key::Char('q') ==> *final(app) == *old(app))
                &&& (key == Key::Esc ==> App::only_modal_changed(*old(app), *final(app)) && final(app).mode is Normal && final(app).last_message@ == old(app).last_message@)
                &&& (key == Key::Enter ==> ({
                    &&& final(app).mode is Normal
                    &&& (if old(app).accounts@.len() > 0 && old(app).zones@.len() > 0 {
                        exists|done: App<B>|
                            {
                                &&& #[trigger] App::delete_outcome(*old(app), done, c.record_id@)
                                &&& done.backend == final(app).backend
                                &&& done.accounts@ == final(app).accounts@
                                &&& done.selected_account == final(app).selected_account
                                &&& done.zones@ == final(app).zones@
                                &&& done.selected_zone == final(app).selected_zone
                                &&& done.records@ == final(app).records@
                                &&& done.selected_record == final(app).selected_record
                                &&& done.record_page == final(app).record_page
                                &&& done.focus == final(app).focus
                                &&& done.record_filter@ == final(app).record_filter@
                                &&& done.record_page_size == final(app).record_page_size
                                &&& done.last_message@ == final(app).last_message@
                            }
                    } else {
                        App::only_modal_changed(*old(app), *final(app)) && final(app).last_message@
                            == old(app).last_message@
                    })
                }))
                &&& (!(key == Key::Char('q') || key == Key::Esc || key == Key::Enter) ==> *final(app)
                    == *old(app))
            },
            _ => true,
        },
{
    let confirm = match &app.mode {
        Mode::ConfirmDelete(c) => c.clone(),
        _ => {
            return false;
        },
    };
    match key {
        Key::Esc => {
            app.mode = Mode::Normal;
            false
        },
        Key::Char(c) => {
            if c == 'q' {
                return true;
            }
            false
        },
        Key::Enter => {
            app.delete_record(confirm.record_id);
            let ghost done = *app;
            app.mode = Mode::Normal;
            proof {
                if old(app).accounts@.len() > 0 && old(app).zones@.len() > 0 {
                    assert(App::delete_outcome(*old(app), done, confirm.record_id@));
                }
            }
            false
        },
        _ => false,
    }
}

/// Keys in the search overlay: edit the buffer, submit it as the new filter
/// (which restarts the view at the first record of the first page), or cancel
/// without touching the active filter.
pub fn handle_search_key<B: DnsBackend>(key: Key, app: &mut App<B>) -> (quit: bool)
    requires
        old(app).wf(),
    ensures
        final(app).wf(),
        !quit,
        !(old(app).mode is Searching) ==> *final(app) == *old(app),
        match old(app).mode {
            Mode::Searching(text) => {
                &&& (key == Key::Esc ==> ({
                    &&& App::only_modal_changed(*old(app), *final(app))
                    &&& final(app).mode is Normal
                    &&& final(app).last_message@ == old(app).last_message@
                }))
                &&& (key == Key::Enter ==> ({
                    &&& final(app).record_filter@ == text@
                    &&& final(app).record_page == 0
                    &&& final(app).selected_record == 0
                    &&& final(app).mode is Normal
                    &&& final(app).records@ == old(app).records@
                    &&& final(app).accounts@ == old(app).accounts@
                    &&& final(app).selected_account == old(app).selected_account
                    &&& final(app).zones@ == old(app).zones@
                    &&& final(app).selected_zone == old(app).selected_zone
                    &&& final(app).focus == old(app).focus
                    &&& final(app).record_page_size == old(app).record_page_size
                    &&& final(app).backend == old(app).backend
                    &&& final(app).last_message@ == old(app).last_message@
                }))
                &&& (key == Key::Backspace ==> searching_with(
                    *old(app),
                    *final(app),
                    drop_last_char(text@),
                ))
                &&& (match key {
                    Key::Char(c) => searching_with(*old(app), *final(app), text@.push(c)),
                    _ => true,
                })
                &&& ((key == Key::Tab || key == Key::BackTab || key == Key::Up || key == Key::Down
                    || key == Key::PageUp || key == Key::PageDown || key == Key::Other) ==> *final(app) == *old(app))
            },
            _ => true,
        },
{
    let text = match &app.mode {
        Mode::Searching(t) => t.clone(),
        _ => {
            return false;
        },
    };
    match key {
        Key::Esc => {
            app.mode = Mode::Normal;
        },
        Key::Enter => {
            app.record_filter = text;
            app.record_page = 0;
            app.selected_record = 0;
            app.mode = Mode::Normal;
        },
        Key::Backspace => {
            let mut t = text;
            pop_char(&mut t);
            app.mode = Mode::Searching(t);
        },
        Key::Char(c) => {
            let mut t = text;
            push_char(&mut t, c);
            app.mode = Mode::Searching(t);
        },
        _ => {},
    }
    false
}

/// Dispatch a key to the handler of the current mode; only normal mode and
/// the delete confirmation honour the quit key.
pub fn handle_key<B: DnsBackend>(key: Key, app: &mut App<B>) -> (quit: bool)
    requires
        old(app).wf(),
    ensures
        final(app).wf(),
        (old(app).mode is Normal || old(app).mode is ConfirmDelete) ==> quit == (key == Key::Char(
            'q',
        )),
        (old(app).mode is AddingAccount || old(app).mode is RecordForm || old(
            app,
        ).mode is Searching) ==> !quit,
        match old(app).mode {
            Mode::Searching(t) => key == Key::Enter ==> ({
                &&& final(app).record_filter@ == t@
                &&& final(app).record_page == 0
                &&& final(app).selected_record == 0
                &&& final(app).mode is Normal
            }),
            _ => true,
        },
{
    let in_normal = match &app.mode {
        Mode::Normal => true,
        _ => false,
    };
    if in_normal {
        return handle_normal_key(key, app);
    }
    let in_adding = match &app.mode {
        Mode::AddingAccount(_) => true,
        _ => false,
    };
    if in_adding {
        return handle_add_account_key(key, app);
    }
    let in_form = match &app.mode {
        Mode::RecordForm(_) => true,
        _ => false,
    };
    if in_form {
        return handle_record_form_key(key, app);
    }
    let in_confirm = match &app.mode {
        Mode::ConfirmDelete(_) => true,
        _ => false,
    };
    if in_confirm {
        return handle_confirm_delete_key(key, app);
    }
    handle_search_key(key, app)
}

} // verus!
