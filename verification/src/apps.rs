//! What the settings window is told of installed applications, and what it sends back.
use crate::domain::AppStatus;
use crate::ports::PermissionStatus;
use crate::text::same_text;
use base64::Engine;
use vstd::prelude::*;

verus! {

/// The standard Base64 encoding (RFC 4648 alphabet, with padding) of `bytes`, as the
/// `base64` crate's `STANDARD` engine produces it.
pub uninterp spec fn base64_standard(bytes: Seq<u8>) -> Seq<char>;

/// Whether the `base64` crate can size the encoding of `n` bytes without overflowing `usize`.
pub open spec fn encodable_len(n: nat) -> bool {
    n / 3 * 4 + (if n % 3 > 0 { 4nat } else { 0nat }) <= usize::MAX
}

/// Whether an icon of `len` bytes can be encoded.
pub fn can_encode(len: usize) -> (can: bool)
    ensures
        can == encodable_len(len as nat),
{
    let groups: usize = len / 3;
    let tail: usize = if len % 3 > 0 { 4 } else { 0 };
    groups <= (usize::MAX - tail) / 4
}

/// An installed application as the settings window lists it.
#[derive(Clone, PartialEq, Eq, Debug)]
pub struct InstalledAppDto {
    pub bundle_id: String,
    pub name: String,
    /// A PNG data URL; none when the UI falls back on the initial letter.
    pub icon_data_url: Option<String>,
    pub status: &'static str,
}

pub open spec fn status_text(status: AppStatus) -> Seq<char> {
    match status {
        AppStatus::Blocked => "Blocked"@,
        AppStatus::Spared => "Spared"@,
        AppStatus::Ignored => "Ignored"@,
    }
}

pub open spec fn permission_text(status: PermissionStatus) -> Seq<char> {
    match status {
        PermissionStatus::Granted => "Granted"@,
        PermissionStatus::Denied => "Denied"@,
        PermissionStatus::Unknown => "Unknown"@,
    }
}

/// The PNG data URL of `png`: the `data:image/png;base64,` prefix, then the Base64 text.
pub open spec fn data_url_text(png: Seq<u8>) -> Seq<char> {
    "data:image/png;base64,"@ + base64_standard(png)
}

/// The name under which the UI shows an application's status.
pub fn status_label(status: AppStatus) -> (label: &'static str)
    ensures
        label@ == status_text(status),
{
    match status {
        AppStatus::Blocked => "Blocked",
        AppStatus::Spared => "Spared",
        AppStatus::Ignored => "Ignored",
    }
}

/// The status the UI names; none for an unknown name.
pub fn parse_status(name: &str) -> (status: Option<AppStatus>)
    ensures
        status == (if name@ == "Blocked"@ {
            Some(AppStatus::Blocked)
        } else if name@ == "Spared"@ {
            Some(AppStatus::Spared)
        } else if name@ == "Ignored"@ {
            Some(AppStatus::Ignored)
        } else {
            None
        }),
{
    if same_text(name, "Blocked") {
        Some(AppStatus::Blocked)
    } else if same_text(name, "Spared") {
        Some(AppStatus::Spared)
    } else if same_text(name, "Ignored") {
        Some(AppStatus::Ignored)
    } else {
        None
    }
}

/// The name under which the UI shows the accessibility permission.
pub fn permission_label(status: PermissionStatus) -> (label: &'static str)
    ensures
        label@ == permission_text(status),
{
    match status {
        PermissionStatus::Granted => "Granted",
        PermissionStatus::Denied => "Denied",
        PermissionStatus::Unknown => "Unknown",
    }
}

/// Calls `base64::Engine::encode` on the `base64::engine::general_purpose::STANDARD` engine.
/// The contract claims that the text is the standard padded encoding of the bytes, four
/// characters per started group of three bytes, as `encoded_len` sizes it.
#[verifier::external_body]
fn encode_standard(bytes: &[u8]) -> (text: String)
    requires
        encodable_len(bytes@.len()),
    ensures
        text@ == base64_standard(bytes@),
        text@.len() == bytes@.len() / 3 * 4 + (if bytes@.len() % 3 > 0 { 4nat } else { 0nat }),
{
    base64::engine::general_purpose::STANDARD.encode(bytes)
}

/// The PNG data URL of an icon already encoded in Base64.
pub fn png_data_url(base64: &str) -> (url: String)
    ensures
        url@ == "data:image/png;base64,"@ + base64@,
{
    let mut url = String::from_str("data:image/png;base64,");
    url.append(base64);
    url
}

/// The PNG data URL of an icon.
pub fn to_data_url(png: &[u8]) -> (url: String)
    requires
        encodable_len(png@.len()),
    ensures
        url@ == data_url_text(png@),
{
    let encoded = encode_standard(png);
    png_data_url(encoded.as_str())
}

/// An installed application as the settings window lists it: its identifier and name, its
/// icon as a data URL when it has one, and the name of its status.
pub fn installed_app_dto(bundle_id: String, name: String, icon_png: Option<Vec<u8>>, status: AppStatus) -> (dto: InstalledAppDto)
    requires
        icon_png matches Some(png) ==> encodable_len(png@.len()),
    ensures
        dto.bundle_id == bundle_id,
        dto.name == name,
        dto.status@ == status_text(status),
        match icon_png {
            Some(png) => dto.icon_data_url matches Some(url) && url@ == data_url_text(png@),
            None => dto.icon_data_url is None,
        },
{
    let icon_data_url = match icon_png {
        Some(png) => Some(to_data_url(png.as_slice())),
        None => None,
    };
    InstalledAppDto { bundle_id, name, icon_data_url, status: status_label(status) }
}

/// The status updates that a spared-apps choice sends: each valid identifier, in the order
/// given, becomes Spared or Blocked as chosen; an invalid identifier is skipped, never fatal.
/// An application absent from the choices gets no update and keeps its status.
pub open spec fn spared_updates_of(choices: Seq<(Seq<char>, bool)>, valid: Seq<bool>) -> Seq<(Seq<char>, AppStatus)>
    decreases choices.len(),
{
    if choices.len() == 0 {
        Seq::empty()
    } else {
        let rest = spared_updates_of(choices.drop_last(), valid.drop_last());
        let (id, is_spared) = choices.last();
        if valid.len() > 0 && valid.last() {
            rest.push((id, if is_spared { AppStatus::Spared } else { AppStatus::Blocked }))
        } else {
            rest
        }
    }
}

/// Only the applications sent change status: every update names an identifier that was
/// sent and found valid, with the status chosen for it.
pub proof fn only_the_apps_sent_change_status(choices: Seq<(Seq<char>, bool)>, valid: Seq<bool>)
    requires
        valid.len() == choices.len(),
    ensures
        forall|k: int| 0 <= k < spared_updates_of(choices, valid).len() ==> exists|i: int|
            0 <= i < choices.len() && valid[i] && #[trigger] spared_updates_of(choices, valid)[k] == (
                choices[i].0,
                if choices[i].1 { AppStatus::Spared } else { AppStatus::Blocked },
            ),
    decreases choices.len(),
{
    if choices.len() > 0 {
        let rest_choices = choices.drop_last();
        let rest_valid = valid.drop_last();
        only_the_apps_sent_change_status(rest_choices, rest_valid);
        let updates = spared_updates_of(choices, valid);
        let rest = spared_updates_of(rest_choices, rest_valid);
        assert forall|k: int| 0 <= k < updates.len() implies exists|i: int|
            0 <= i < choices.len() && valid[i] && #[trigger] updates[k] == (
                choices[i].0,
                if choices[i].1 { AppStatus::Spared } else { AppStatus::Blocked },
            ) by {
            if k < rest.len() {
                assert(updates[k] == rest[k]);
                let i = choose|i: int|
                    0 <= i < rest_choices.len() && rest_valid[i] && #[trigger] rest[k] == (
                        rest_choices[i].0,
                        if rest_choices[i].1 { AppStatus::Spared } else { AppStatus::Blocked },
                    );
                assert(choices[i] == rest_choices[i]);
                assert(valid[i] == rest_valid[i]);
            } else {
                let last = choices.len() - 1;
                assert(choices[last] == choices.last());
                assert(valid[last] == valid.last());
            }
        }
    }
}

/// How many of the flags are set.
pub open spec fn set_count(flags: Seq<bool>) -> nat {
    flags.filter(|b: bool| b).len()
}

proof fn lemma_set_count_step(flags: Seq<bool>)
    requires
        flags.len() > 0,
    ensures
        set_count(flags) == set_count(flags.drop_last()) + (if flags.last() { 1nat } else { 0nat }),
{
    reveal(Seq::filter);
}

proof fn lemma_set_count_prefix(flags: Seq<bool>, i: int)
    requires
        0 <= i < flags.len(),
        flags[i],
    ensures
        set_count(flags.take(i)) < set_count(flags),
    decreases flags.len(),
{
    let shorter = flags.drop_last();
    lemma_set_count_step(flags);
    if i == flags.len() - 1 {
        assert(flags.take(i) =~= shorter);
    } else {
        assert(shorter.take(i) =~= flags.take(i));
        assert(shorter[i] == flags[i]);
        lemma_set_count_prefix(shorter, i);
    }
}

/// Every valid choice is applied, in the order sent: there are as many updates as valid
/// choices, and the valid choice at index `i` gives the update that follows those of the
/// valid choices before it, with the identifier sent and Spared or Blocked as chosen.
pub proof fn every_valid_choice_is_applied(choices: Seq<(Seq<char>, bool)>, valid: Seq<bool>)
    requires
        valid.len() == choices.len(),
    ensures
        spared_updates_of(choices, valid).len() == set_count(valid),
        forall|i: int|
            0 <= i < choices.len() && valid[i] ==> spared_updates_of(choices, valid)[set_count(
                #[trigger] valid.take(i),
            ) as int] == (choices[i].0, if choices[i].1 { AppStatus::Spared } else { AppStatus::Blocked }),
    decreases choices.len(),
{
    if choices.len() == 0 {
        reveal(Seq::filter);
    } else {
        let rest_choices = choices.drop_last();
        let rest_valid = valid.drop_last();
        every_valid_choice_is_applied(rest_choices, rest_valid);
        lemma_set_count_step(valid);
        let updates = spared_updates_of(choices, valid);
        let rest = spared_updates_of(rest_choices, rest_valid);
        assert forall|i: int| 0 <= i < choices.len() && valid[i] implies updates[set_count(
            #[trigger] valid.take(i),
        ) as int] == (choices[i].0, if choices[i].1 { AppStatus::Spared } else { AppStatus::Blocked }) by {
            let last = choices.len() - 1;
            if i == last {
                assert(valid.take(i) =~= rest_valid);
                assert(choices[last] == choices.last());
                assert(valid[last] == valid.last());
            } else {
                assert(rest_valid.take(i) =~= valid.take(i));
                assert(rest_valid[i] == valid[i]);
                assert(rest_choices[i] == choices[i]);
                lemma_set_count_prefix(rest_valid, i);
                assert(updates[set_count(valid.take(i)) as int] == rest[set_count(rest_valid.take(i)) as int]);
            }
        }
    }
}

/// The updates that `choices` make, given whether each identifier parses (`valid[i]` for
/// `choices[i]`).
pub fn spared_updates(choices: &Vec<(String, bool)>, valid: &Vec<bool>) -> (updates: Vec<(String, AppStatus)>)
    requires
        valid@.len() == choices@.len(),
    ensures
        updates@.map_values(|u: (String, AppStatus)| (u.0@, u.1)) == spared_updates_of(
            choices@.map_values(|c: (String, bool)| (c.0@, c.1)),
            valid@,
        ),
{
    let ghost all = choices@.map_values(|c: (String, bool)| (c.0@, c.1));
    let mut updates: Vec<(String, AppStatus)> = Vec::new();
    let mut i: usize = 0;
    assert(updates@.map_values(|u: (String, AppStatus)| (u.0@, u.1)) =~= Seq::empty());
    while i < choices.len()
        invariant
            i <= choices@.len(),
            valid@.len() == choices@.len(),
            all == choices@.map_values(|c: (String, bool)| (c.0@, c.1)),
            updates@.map_values(|u: (String, AppStatus)| (u.0@, u.1)) == spared_updates_of(
                all.take(i as int),
                valid@.take(i as int),
            ),
        decreases choices@.len() - i,
    {
        assert(all.take(i + 1).drop_last() =~= all.take(i as int));
        assert(valid@.take(i + 1).drop_last() =~= valid@.take(i as int));
        assert(all.take(i + 1).last() == all[i as int]);
        assert(valid@.take(i + 1).last() == valid@[i as int]);
        let ghost prev = spared_updates_of(all.take(i as int), valid@.take(i as int));
        if valid[i] {
            let status = if choices[i].1 {
                AppStatus::Spared
            } else {
                AppStatus::Blocked
            };
            let id = choices[i].0.clone();
            assert(id@ == all[i as int].0);
            let ghost before = updates@;
            updates.push((id, status));
            assert(updates@.map_values(|u: (String, AppStatus)| (u.0@, u.1)) =~= before.map_values(
                |u: (String, AppStatus)| (u.0@, u.1),
            ).push((all[i as int].0, status)));
            assert(spared_updates_of(all.take(i + 1), valid@.take(i + 1)) == prev.push((all[i as int].0, status)));
        } else {
            assert(spared_updates_of(all.take(i + 1), valid@.take(i + 1)) == prev);
        }
        i = i + 1;
    }
    assert(all.take(i as int) =~= all);
    assert(valid@.take(i as int) =~= valid@);
    updates
}

} // verus!
