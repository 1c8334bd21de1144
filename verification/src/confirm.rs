//! Removing symbols from the watchlist, in two steps: a selection opens a
//! request that waits for a short time, and only the one who opened it can
//! confirm it.

use vstd::prelude::*;
use vstd::string::StringExecFns;
use crate::text::{after_prefix, before_first, decimal, joined, texts};
use crate::text::{lemma_before_first, lemma_decimal_injective, lemma_decimal_is_digits};
use crate::text::{decimal_string, join, same_text, strip_prefix, take_before};

verus! {

/// The most symbols that one selection offers.
pub const MENU_CAP: usize = 25;

/// The identifier of the selection.
pub const SELECT_ID: &'static str = "select_delete";

/// The identifier of the button that cancels.
pub const CANCEL_ID: &'static str = "cancel_del";

/// What the identifier of a confirming button begins with; the request
/// follows.
pub const CONFIRM_PREFIX: &'static str = "confirm_del_";

/// The number of symbols offered, of `count` that are tracked.
pub fn menu_size(count: usize) -> (n: u8)
    ensures
        n == if count < MENU_CAP {
            count
        } else {
            MENU_CAP
        },
{
    if count < MENU_CAP {
        count as u8
    } else {
        MENU_CAP as u8
    }
}

/// The text of a request: who opened it, a hyphen, and when.
pub open spec fn request_text(user_id: u64, now_secs: u64) -> Seq<char> {
    decimal(user_id as nat) + "-"@ + decimal(now_secs as nat)
}

/// Names the request that `user_id` opens at `now_secs`.
pub fn request_id(user_id: u64, now_secs: u64) -> (id: String)
    ensures
        id@ == request_text(user_id, now_secs),
{
    let when = decimal_string(now_secs);
    decimal_string(user_id).concat("-").concat(when.as_str())
}

/// The identifier of the button that confirms a request.
pub fn confirm_id(request: &str) -> (id: String)
    ensures
        id@ == CONFIRM_PREFIX@ + request@,
{
    String::from_str(CONFIRM_PREFIX).concat(request)
}

/// Who opened a request: its text up to the first hyphen.
pub open spec fn owner_text(request: Seq<char>) -> Seq<char> {
    before_first(request, '-')
}

/// What an interaction with a component asks for.
#[derive(Debug, PartialEq, Eq)]
pub enum Component {
    /// Symbols were selected: open a request.
    Select,
    /// The removal was cancelled.
    Cancel,
    /// The one who opened this request confirms it.
    Confirm(String),
    /// Someone else tried to confirm a request.
    Denied,
    /// The component is not one of this flow.
    Ignored,
}

/// Whether `route` is what the component `custom_id` asks for when
/// `user_id` acts on it.
pub open spec fn routes(custom_id: Seq<char>, user_id: u64, route: Component) -> bool {
    if custom_id == SELECT_ID@ {
        route == Component::Select
    } else if custom_id == CANCEL_ID@ {
        route == Component::Cancel
    } else {
        match after_prefix(custom_id, CONFIRM_PREFIX@) {
            Some(request) => if owner_text(request) == decimal(user_id as nat) {
                route matches Component::Confirm(r) && r@ == request
            } else {
                route == Component::Denied
            },
            None => route == Component::Ignored,
        }
    }
}

/// Decides what an interaction asks for, from the component's identifier
/// and the one who acts.
pub fn route(custom_id: &str, user_id: u64) -> (route: Component)
    ensures
        routes(custom_id@, user_id, route),
{
    if same_text(custom_id, SELECT_ID) {
        return Component::Select;
    }
    if same_text(custom_id, CANCEL_ID) {
        return Component::Cancel;
    }
    match strip_prefix(custom_id, CONFIRM_PREFIX) {
        Some(request) => {
            let owner = take_before(request, '-');
            let actor = decimal_string(user_id);
            if same_text(owner, actor.as_str()) {
                Component::Confirm(String::from_str(request))
            } else {
                Component::Denied
            }
        },
        None => Component::Ignored,
    }
}

/// The owner of a request is the one who opened it.
pub proof fn lemma_owner_of_request(user_id: u64, now_secs: u64)
    ensures
        owner_text(request_text(user_id, now_secs)) == decimal(user_id as nat),
{
    reveal_strlit("-");
    let owner = decimal(user_id as nat);
    let request = request_text(user_id, now_secs);
    lemma_decimal_is_digits(user_id as nat);
    lemma_before_first(request, '-');
    assert(request[owner.len() as int] == '-');
    assert forall|i: int| 0 <= i < owner.len() implies request[i] != '-' by {
        assert(request[i] == owner[i]);
    }
    let k = crate::text::first_index(request, '-');
    assert(k == owner.len()) by {
        if k < owner.len() {
            assert(request[k as int] != '-');
        }
    }
    assert(request.subrange(0, k as int) =~= owner);
}

/// Only the one who opened a request can confirm it: the button that
/// confirms the request of `owner` is routed to `Confirm` with that request
/// when `owner` acts, and to `Denied` when anyone else does.
pub proof fn lemma_only_owner_confirms(owner: u64, now_secs: u64, actor: u64, route: Component)
    requires
        routes(CONFIRM_PREFIX@ + request_text(owner, now_secs), actor, route),
    ensures
        if actor == owner {
            route matches Component::Confirm(r) && r@ == request_text(owner, now_secs)
        } else {
            route == Component::Denied
        },
{
    reveal_strlit("select_delete");
    reveal_strlit("cancel_del");
    reveal_strlit("confirm_del_");
    let request = request_text(owner, now_secs);
    let id = CONFIRM_PREFIX@ + request;
    assert(id[0] == 'c' && id[1] == 'o');
    assert(SELECT_ID@[0] == 's');
    assert(CANCEL_ID@[1] == 'a');
    assert(id.subrange(0, CONFIRM_PREFIX@.len() as int) =~= CONFIRM_PREFIX@);
    assert(id.subrange(CONFIRM_PREFIX@.len() as int, id.len() as int) =~= request);
    lemma_owner_of_request(owner, now_secs);
    if actor != owner && decimal(actor as nat) == decimal(owner as nat) {
        lemma_decimal_injective(actor as nat, owner as nat);
    }
}

/// A request that waits to be confirmed.
#[derive(Debug, PartialEq, Eq)]
pub struct Prompt {
    /// The name of the request, under which its symbols are kept.
    pub request: String,
    /// The identifier of the button that confirms it.
    pub confirm: String,
    /// The question put to the user.
    pub message: String,
}

/// The question put before `count` symbols are removed.
pub open spec fn question(count: nat, symbols: Seq<Seq<char>>) -> Seq<char> {
    "Are you sure you want to delete **"@ + decimal(count) + "** symbols?\n> "@ + joined(
        symbols,
        ", "@,
    )
}

/// Opens a request for the symbols selected. Nothing is opened for an
/// empty selection.
pub fn open_request(user_id: u64, now_secs: u64, selected: &Vec<String>) -> (prompt: Option<
    Prompt,
>)
    ensures
        prompt is Some <==> selected@.len() > 0,
        prompt matches Some(p) ==> p.request@ == request_text(user_id, now_secs) && p.confirm@
            == CONFIRM_PREFIX@ + p.request@ && p.message@ == question(
            selected@.len(),
            texts(selected@),
        ),
{
    if selected.len() == 0 {
        return None;
    }
    let request = request_id(user_id, now_secs);
    let confirm = confirm_id(request.as_str());
    let count = decimal_string(selected.len() as u64);
    let list = join(selected, ", ");
    let message = String::from_str("Are you sure you want to delete **").concat(
        count.as_str(),
    ).concat("** symbols?\n> ").concat(list.as_str());
    Some(Prompt { request, confirm, message })
}

/// What a confirmed request leads to.
#[derive(Debug, PartialEq, Eq)]
pub enum Confirmed {
    /// The request is no longer kept: it has expired, or it was used.
    Expired,
    /// Remove these symbols, then send the message.
    Remove { symbols: Vec<String>, message: String },
}

/// Decides what follows a confirmation, from what is kept under the request.
pub fn confirm(kept: Option<Vec<String>>) -> (next: Confirmed)
    ensures
        match kept {
            None => next == Confirmed::Expired,
            Some(list) => next matches Confirmed::Remove { symbols, message } && symbols == list
                && message@ == joined(texts(list@), ", "@) + " was deleted."@,
        },
{
    match kept {
        None => Confirmed::Expired,
        Some(symbols) => {
            let message = join(&symbols, ", ").concat(" was deleted.");
            Confirmed::Remove { symbols, message }
        },
    }
}

/// The line that reports symbols under a heading, or none where there is
/// no symbol to report.
pub fn report_line(heading: &str, symbols: &Vec<String>) -> (line: Option<String>)
    ensures
        line is Some <==> symbols@.len() > 0,
        line matches Some(l) ==> l@ == heading@ + joined(texts(symbols@), ", "@),
{
    if symbols.len() == 0 {
        None
    } else {
        let list = join(symbols, ", ");
        Some(String::from_str(heading).concat(list.as_str()))
    }
}

} // verus!
