//! From a resource to the secret it asks for.

pub mod controller;
pub mod schemas;

use crate::bitwarden_cli::{
    BitwardenItem, BitwardenItemField, BitwardenItemFieldView, BitwardenItemView,
};
use crate::operator::schemas::{
    BitwardenSecret, BitwardenSecretError, BitwardenSecretErrorView, BitwardenSecretSpec,
    BitwardenSecretView, ContentEntry, ContentEntryView, MaterializedSecret,
    MaterializedSecretView, OwnerReference, OwnerReferenceView, OPERATOR_HASH_LABEL,
    OPERATOR_LAST_UPDATE_LABEL,
};
use crate::string_map::{map_of, StringMap};
use crate::text::{decimal_string, decimal_text, str_eq};
use crate::time::{current_time, Timestamp};
use crate::views::{
    first_where, is_first_where, lemma_first_where_exists, lemma_first_where_none,
    lemma_first_where_unique, result_view,
};
use vstd::prelude::*;
use vstd::string::*;
use vstd::utf8::*;

verus! {

/// Name of the entry setting that a refused note selection is reported
/// under.
pub const USE_NOTE_FIELD: &'static str = "bitwarden_use_note";

/// The vault item that an entry reads: the one it names, else `default_id`.
pub open spec fn resolved_id(entry: ContentEntryView, default_id: Option<Seq<char>>) -> Option<
    Seq<char>,
> {
    match entry.bitwarden_id {
        Some(id) => Some(id),
        None => default_id,
    }
}

/// The vault item that an entry of `secret` reads, or the error that names
/// the entry's key where neither the entry nor the resource names an item.
pub open spec fn bitwarden_id_of(entry: ContentEntryView, secret: BitwardenSecretView) -> Result<
    Seq<char>,
    BitwardenSecretErrorView,
> {
    match resolved_id(entry, secret.spec.bitwarden_id) {
        Some(id) => Ok(id),
        None => Err(BitwardenSecretErrorView::MissingBitwardenId(entry.kubernetes_secret_key)),
    }
}

/// Resolves the vault item that `content_entry` reads.
pub fn get_bitwarden_id(content_entry: &ContentEntry, bitwarden_secret: &BitwardenSecret) -> (id:
    Result<String, BitwardenSecretError>)
    ensures
        result_view(id) == bitwarden_id_of(content_entry@, bitwarden_secret@),
{
    match &content_entry.bitwarden_id {
        Some(id) => Ok(id.clone()),
        None => match &bitwarden_secret.spec.bitwarden_id {
            Some(id) => Ok(id.clone()),
            None => Err(
                BitwardenSecretError::MissingBitwardenId(
                    content_entry.kubernetes_secret_key.clone(),
                ),
            ),
        },
    }
}

/// The test that a field bears the name `name`.
pub open spec fn is_named(name: Seq<char>) -> spec_fn(BitwardenItemFieldView) -> bool {
    |field: BitwardenItemFieldView| field.name == name
}

/// The value of the first field that bears exactly the name `name`.
pub open spec fn field_value(fields: Seq<BitwardenItemFieldView>, name: Seq<char>) -> Option<
    Seq<char>,
> {
    match first_where(fields, is_named(name)) {
        Some(i) => Some(fields[i].value),
        None => None,
    }
}

/// The error for an entry whose note selection cannot be followed on the
/// vault item `id`.
pub open spec fn note_refused(id: Seq<char>) -> BitwardenSecretErrorView {
    BitwardenSecretErrorView::WrongValues(id, USE_NOTE_FIELD@)
}

/// The value that `entry` selects from `item`, which was fetched as `id`.
///
/// A value given outright wins. Else a note selection decides: where it is
/// switched on the item's note is taken, and must be there; where it is
/// switched off the entry is refused. Else a field name decides: the first
/// field of that name gives the value, and must be there. An entry that gives
/// none of the three is refused.
pub open spec fn secret_value(entry: ContentEntryView, item: BitwardenItemView, id: Seq<char>)
    -> Result<Seq<char>, BitwardenSecretErrorView> {
    if let Some(value) = entry.kubernetes_secret_value {
        Ok(value)
    } else if let Some(use_note) = entry.bitwarden_use_note {
        if use_note && item.note is Some {
            Ok(item.note->0)
        } else {
            Err(note_refused(id))
        }
    } else if let Some(name) = entry.bitwarden_secret_field {
        let fields = match item.fields {
            Some(fields) => fields,
            None => Seq::empty(),
        };
        match field_value(fields, name) {
            Some(value) => Ok(value),
            None => Err(BitwardenSecretErrorView::BitwardenItemNotFound(name)),
        }
    } else {
        Err(note_refused(id))
    }
}

/// Finds the value of the first field that bears the name `name`.
fn find_field_value<'a>(fields: &'a Vec<BitwardenItemField>, name: &str) -> (value: Option<
    &'a String,
>)
    ensures
        match value {
            Some(v) => field_value(fields.deep_view(), name@) == Some(v@),
            None => field_value(fields.deep_view(), name@) is None,
        },
{
    let mut i: usize = 0;
    while i < fields.len()
        invariant
            i <= fields.len(),
            forall|j: int| 0 <= j < i ==> !is_named(name@)(#[trigger] fields.deep_view()[j]),
        decreases fields.len() - i,
    {
        if str_eq(fields[i].name.as_str(), name) {
            proof {
                lemma_first_where_unique(fields.deep_view(), is_named(name@), i as int);
            }
            return Some(&fields[i].value);
        }
        i += 1;
    }
    proof {
        lemma_first_where_none(fields.deep_view(), is_named(name@));
    }
    None
}

/// Selects the value that `content_entry` takes from `bitwarden_item`, which
/// was fetched as `bitwarden_id`.
pub fn get_secret_value(
    content_entry: &ContentEntry,
    bitwarden_item: &BitwardenItem,
    bitwarden_id: &str,
) -> (value: Result<String, BitwardenSecretError>)
    ensures
        result_view(value) == secret_value(content_entry@, bitwarden_item@, bitwarden_id@),
        content_entry@.kubernetes_secret_value matches Some(given) ==> result_view(value) == Ok::<
            Seq<char>,
            BitwardenSecretErrorView,
        >(given),
        content_entry@.kubernetes_secret_value is None && content_entry@.bitwarden_use_note
            == Some(false) ==> result_view(value) == Err::<Seq<char>, BitwardenSecretErrorView>(
            BitwardenSecretErrorView::WrongValues(bitwarden_id@, USE_NOTE_FIELD@),
        ),
{
    if let Some(value) = &content_entry.kubernetes_secret_value {
        return Ok(value.clone());
    }
    if let Some(use_note) = content_entry.bitwarden_use_note {
        if use_note {
            if let Some(note) = &bitwarden_item.note {
                return Ok(note.clone());
            }
        }
        return Err(
            BitwardenSecretError::WrongValues(
                String::from_str(bitwarden_id),
                String::from_str(USE_NOTE_FIELD),
            ),
        );
    }
    if let Some(field_name) = &content_entry.bitwarden_secret_field {
        let found = match &bitwarden_item.fields {
            Some(fields) => find_field_value(fields, field_name.as_str()),
            None => {
                proof {
                    lemma_first_where_none(
                        Seq::<BitwardenItemFieldView>::empty(),
                        is_named(field_name@),
                    );
                }
                None
            },
        };
        return match found {
            Some(value) => Ok(value.clone()),
            None => Err(BitwardenSecretError::BitwardenItemNotFound(field_name.clone())),
        };
    }
    Err(
        BitwardenSecretError::WrongValues(
            String::from_str(bitwarden_id),
            String::from_str(USE_NOTE_FIELD),
        ),
    )
}

/// A value given outright wins, whatever the entry says of notes and fields
/// and whatever the vault item holds.
pub proof fn lemma_given_value_wins(
    entry: ContentEntryView,
    item: BitwardenItemView,
    id: Seq<char>,
)
    requires
        entry.kubernetes_secret_value is Some,
    ensures
        secret_value(entry, item, id) == Ok::<Seq<char>, BitwardenSecretErrorView>(
            entry.kubernetes_secret_value->0,
        ),
{
}

/// An entry that gives no value outright and switches the note off is
/// refused, whatever notes and fields the vault item holds and whatever field
/// the entry names.
pub proof fn lemma_note_switched_off_is_refused(
    entry: ContentEntryView,
    item: BitwardenItemView,
    id: Seq<char>,
)
    requires
        entry.kubernetes_secret_value is None,
        entry.bitwarden_use_note == Some(false),
    ensures
        secret_value(entry, item, id) == Err::<Seq<char>, BitwardenSecretErrorView>(
            BitwardenSecretErrorView::WrongValues(id, USE_NOTE_FIELD@),
        ),
{
}

/// An entry that gives no value outright and switches the note on takes the
/// item's note, and is refused where the item has none.
pub proof fn lemma_note_switched_on_takes_the_note(
    entry: ContentEntryView,
    item: BitwardenItemView,
    id: Seq<char>,
)
    requires
        entry.kubernetes_secret_value is None,
        entry.bitwarden_use_note == Some(true),
    ensures
        item.note is Some ==> secret_value(entry, item, id) == Ok::<
            Seq<char>,
            BitwardenSecretErrorView,
        >(item.note->0),
        item.note is None ==> secret_value(entry, item, id) == Err::<
            Seq<char>,
            BitwardenSecretErrorView,
        >(BitwardenSecretErrorView::WrongValues(id, USE_NOTE_FIELD@)),
{
}

/// Whether an entry names no vault item, can fall back on none, and gives no
/// value outright. `default_id` is the item that the resource names for its
/// entries, `global_id` the one that the caller passes beside it.
pub open spec fn lacks_source(
    entry: ContentEntryView,
    default_id: Option<Seq<char>>,
    global_id: Option<Seq<char>>,
) -> bool {
    &&& entry.bitwarden_id is None
    &&& entry.kubernetes_secret_value is None
    &&& (global_id is None || default_id is None)
}

/// The test `lacks_source` as a function of the entry.
pub open spec fn lacking(default_id: Option<Seq<char>>, global_id: Option<Seq<char>>) -> spec_fn(
    ContentEntryView,
) -> bool {
    |entry: ContentEntryView| lacks_source(entry, default_id, global_id)
}

/// A plan with `id` added, unless it holds `id` already.
pub open spec fn plan_with(plan: Seq<Seq<char>>, id: Seq<char>) -> Seq<Seq<char>> {
    if plan.contains(id) {
        plan
    } else {
        plan.push(id)
    }
}

/// The vault items to fetch for `entries`, each once, in the order in which
/// the entries first read them; or the error that names the key of the first
/// entry that lacks a source.
pub open spec fn fetch_plan(
    entries: Seq<ContentEntryView>,
    default_id: Option<Seq<char>>,
    global_id: Option<Seq<char>>,
) -> Result<Seq<Seq<char>>, BitwardenSecretErrorView>
    decreases entries.len(),
{
    if entries.len() == 0 {
        Ok(Seq::empty())
    } else {
        let entry = entries.last();
        match fetch_plan(entries.drop_last(), default_id, global_id) {
            Err(error) => Err(error),
            Ok(plan) => if lacks_source(entry, default_id, global_id) {
                Err(BitwardenSecretErrorView::MissingBitwardenId(entry.kubernetes_secret_key))
            } else {
                match resolved_id(entry, default_id) {
                    Some(id) => Ok(plan_with(plan, id)),
                    None => Ok(plan),
                }
            },
        }
    }
}

/// Where no entry lacks a source, the plan holds every vault item that some
/// entry reads, holds it once, and holds nothing else.
pub proof fn lemma_fetch_plan_is_what_entries_read(
    entries: Seq<ContentEntryView>,
    default_id: Option<Seq<char>>,
    global_id: Option<Seq<char>>,
)
    requires
        forall|i: int|
            0 <= i < entries.len() ==> !lacks_source(#[trigger] entries[i], default_id, global_id),
    ensures
        fetch_plan(entries, default_id, global_id) is Ok,
        fetch_plan(entries, default_id, global_id)->Ok_0.no_duplicates(),
        forall|id: Seq<char>|
            fetch_plan(entries, default_id, global_id)->Ok_0.contains(id) <==> exists|i: int|
                0 <= i < entries.len() && resolved_id(#[trigger] entries[i], default_id) == Some(
                    id,
                ),
    decreases entries.len(),
{
    if entries.len() > 0 {
        let front = entries.drop_last();
        assert forall|i: int| 0 <= i < front.len() implies !lacks_source(
            #[trigger] front[i],
            default_id,
            global_id,
        ) by {
            assert(front[i] == entries[i]);
        }
        lemma_fetch_plan_is_what_entries_read(front, default_id, global_id);
        let before = fetch_plan(front, default_id, global_id)->Ok_0;
        let plan = fetch_plan(entries, default_id, global_id)->Ok_0;
        assert forall|id: Seq<char>| plan.contains(id) <==> exists|i: int|
            0 <= i < entries.len() && resolved_id(#[trigger] entries[i], default_id) == Some(
                id,
            ) by {
            if plan.contains(id) {
                if before.contains(id) {
                    let i = choose|i: int|
                        0 <= i < front.len() && resolved_id(#[trigger] front[i], default_id)
                            == Some(id);
                    assert(resolved_id(entries[i], default_id) == Some(id));
                } else {
                    assert(resolved_id(entries[entries.len() - 1], default_id) == Some(id));
                }
            }
            if exists|i: int|
                0 <= i < entries.len() && resolved_id(#[trigger] entries[i], default_id) == Some(
                    id,
                ) {
                let i = choose|i: int|
                    0 <= i < entries.len() && resolved_id(#[trigger] entries[i], default_id)
                        == Some(id);
                if i < front.len() {
                    assert(resolved_id(front[i], default_id) == Some(id));
                    assert(before.contains(id));
                    let k = choose|k: int| 0 <= k < before.len() && before[k] == id;
                    assert(plan[k] == id);
                } else if !before.contains(id) {
                    assert(plan[before.len() as int] == id);
                }
            }
        }
    }
}

/// Where some entry lacks a source, the plan fails, and the error names the
/// key of the first such entry.
pub proof fn lemma_fetch_plan_names_first_lacking_entry(
    entries: Seq<ContentEntryView>,
    default_id: Option<Seq<char>>,
    global_id: Option<Seq<char>>,
    i: int,
)
    requires
        is_first_where(entries, lacking(default_id, global_id), i),
    ensures
        fetch_plan(entries, default_id, global_id) == Err::<
            Seq<Seq<char>>,
            BitwardenSecretErrorView,
        >(BitwardenSecretErrorView::MissingBitwardenId(entries[i].kubernetes_secret_key)),
    decreases entries.len(),
{
    let p = lacking(default_id, global_id);
    let front = entries.drop_last();
    if i == entries.len() - 1 {
        assert forall|j: int| 0 <= j < front.len() implies !lacks_source(
            #[trigger] front[j],
            default_id,
            global_id,
        ) by {
            assert(front[j] == entries[j]);
        }
        lemma_fetch_plan_is_what_entries_read(front, default_id, global_id);
    } else {
        assert(is_first_where(front, p, i)) by {
            assert forall|j: int| 0 <= j < i implies !p(#[trigger] front[j]) by {
                assert(front[j] == entries[j]);
            }
        }
        lemma_fetch_plan_names_first_lacking_entry(front, default_id, global_id, i);
    }
}

/// Where at least one entry lacks a source, the plan fails, and the error
/// names the key of an entry that lacks one: the first of them.
pub proof fn lemma_fetch_plan_fails_on_a_lacking_entry(
    entries: Seq<ContentEntryView>,
    default_id: Option<Seq<char>>,
    global_id: Option<Seq<char>>,
    i: int,
)
    requires
        0 <= i < entries.len(),
        lacks_source(entries[i], default_id, global_id),
    ensures
        first_where(entries, lacking(default_id, global_id)) is Some,
        ({
            let first = first_where(entries, lacking(default_id, global_id))->0;
            &&& 0 <= first <= i
            &&& lacks_source(entries[first], default_id, global_id)
            &&& fetch_plan(entries, default_id, global_id) == Err::<
                Seq<Seq<char>>,
                BitwardenSecretErrorView,
            >(BitwardenSecretErrorView::MissingBitwardenId(entries[first].kubernetes_secret_key))
        }),
{
    let p = lacking(default_id, global_id);
    lemma_first_where_exists(entries, p, i);
    let first = first_where(entries, p)->0;
    lemma_fetch_plan_names_first_lacking_entry(entries, default_id, global_id, first);
}

/// Tells whether `list` holds the text `text`.
fn holds_text(list: &Vec<String>, text: &str) -> (held: bool)
    ensures
        held == list.deep_view().contains(text@),
{
    let mut i: usize = 0;
    while i < list.len()
        invariant
            i <= list.len(),
            forall|j: int| 0 <= j < i ==> list.deep_view()[j] != text@,
        decreases list.len() - i,
    {
        if str_eq(list[i].as_str(), text) {
            proof {
                assert(list.deep_view()[i as int] == text@);
            }
            return true;
        }
        i += 1;
    }
    false
}

/// Goes through the entries of `bitwarden_spec` and gathers the vault items
/// that they read.
fn gather_items_to_fetch(
    bitwarden_secret: &BitwardenSecret,
    bitwarden_spec: &BitwardenSecretSpec,
    global_bitwarden_id: &Option<String>,
) -> (to_fetch: Result<Vec<String>, BitwardenSecretError>)
    ensures
        plan_view(to_fetch) == fetch_plan(
            bitwarden_spec@.content,
            bitwarden_secret@.spec.bitwarden_id,
            global_bitwarden_id.deep_view(),
        ),
{
    let ghost entries = bitwarden_spec@.content;
    let ghost default_id = bitwarden_secret@.spec.bitwarden_id;
    let ghost global_id = global_bitwarden_id.deep_view();
    let mut to_fetch: Vec<String> = Vec::new();
    let mut i: usize = 0;
    proof {
        assert(to_fetch.deep_view() =~= Seq::<Seq<char>>::empty());
    }
    while i < bitwarden_spec.content.len()
        invariant
            i <= bitwarden_spec.content.len(),
            entries == bitwarden_spec@.content,
            entries.len() == bitwarden_spec.content.len(),
            default_id == bitwarden_secret@.spec.bitwarden_id,
            global_id == global_bitwarden_id.deep_view(),
            fetch_plan(entries.take(i as int), default_id, global_id) == Ok::<
                Seq<Seq<char>>,
                BitwardenSecretErrorView,
            >(to_fetch.deep_view()),
        decreases bitwarden_spec.content.len() - i,
    {
        let content = &bitwarden_spec.content[i];
        proof {
            assert(entries.take(i + 1).drop_last() =~= entries.take(i as int));
        }
        let resolved = get_bitwarden_id(content, bitwarden_secret);
        let lacks = content.bitwarden_id.is_none() && content.kubernetes_secret_value.is_none() && (
        global_bitwarden_id.is_none() || resolved.is_err());
        if lacks {
            proof {
                lemma_fetch_plan_fails_later(entries, default_id, global_id, i + 1);
            }
            return Err(
                BitwardenSecretError::MissingBitwardenId(content.kubernetes_secret_key.clone()),
            );
        }
        if let Ok(id) = resolved {
            if !holds_text(&to_fetch, id.as_str()) {
                let ghost before = to_fetch.deep_view();
                to_fetch.push(id);
                proof {
                    assert(to_fetch.deep_view() =~= before.push(id@));
                }
            }
        }
        i += 1;
    }
    proof {
        assert(entries.take(i as int) =~= entries);
    }
    Ok(to_fetch)
}

/// The mathematical value of a plan, or of the failure to make one.
pub open spec fn plan_view(plan: Result<Vec<String>, BitwardenSecretError>) -> Result<
    Seq<Seq<char>>,
    BitwardenSecretErrorView,
> {
    match plan {
        Ok(ids) => Ok(ids.deep_view()),
        Err(error) => Err(error@),
    }
}

/// Plans which vault items to fetch for the entries of `bitwarden_spec`.
///
/// `bitwarden_secret` gives the item that entries fall back on;
/// `global_bitwarden_id` is tested beside it where an entry names no item and
/// gives no value.
///
/// The plan is made exactly where no entry lacks a source. It then holds
/// every vault item that some entry reads, holds it once, and holds nothing
/// else. Where an entry lacks a source, the error names the key of the first
/// such entry.
pub fn try_get_to_fetch(
    bitwarden_secret: &BitwardenSecret,
    bitwarden_spec: &BitwardenSecretSpec,
    global_bitwarden_id: Option<String>,
) -> (to_fetch: Result<Vec<String>, BitwardenSecretError>)
    ensures
        plan_view(to_fetch) == fetch_plan(
            bitwarden_spec@.content,
            bitwarden_secret@.spec.bitwarden_id,
            global_bitwarden_id.deep_view(),
        ),
        to_fetch is Ok <==> forall|i: int|
            0 <= i < bitwarden_spec@.content.len() ==> !lacks_source(
                #[trigger] bitwarden_spec@.content[i],
                bitwarden_secret@.spec.bitwarden_id,
                global_bitwarden_id.deep_view(),
            ),
        to_fetch matches Ok(ids) ==> ids.deep_view().no_duplicates() && forall|id: Seq<char>|
            ids.deep_view().contains(id) <==> exists|i: int|
                0 <= i < bitwarden_spec@.content.len() && resolved_id(
                    #[trigger] bitwarden_spec@.content[i],
                    bitwarden_secret@.spec.bitwarden_id,
                ) == Some(id),
        to_fetch matches Err(error) ==> exists|i: int|
            is_first_where(
                bitwarden_spec@.content,
                lacking(bitwarden_secret@.spec.bitwarden_id, global_bitwarden_id.deep_view()),
                i,
            ) && error@ == BitwardenSecretErrorView::MissingBitwardenId(
                bitwarden_spec@.content[i].kubernetes_secret_key,
            ),
{
    let to_fetch = gather_items_to_fetch(bitwarden_secret, bitwarden_spec, &global_bitwarden_id);
    proof {
        let entries = bitwarden_spec@.content;
        let default_id = bitwarden_secret@.spec.bitwarden_id;
        let global_id = global_bitwarden_id.deep_view();
        let p = lacking(default_id, global_id);
        if exists|i: int| 0 <= i < entries.len() && lacks_source(
            #[trigger] entries[i],
            default_id,
            global_id,
        ) {
            let i = choose|i: int| 0 <= i < entries.len() && lacks_source(
                #[trigger] entries[i],
                default_id,
                global_id,
            );
            lemma_fetch_plan_fails_on_a_lacking_entry(entries, default_id, global_id, i);
            assert(is_first_where(entries, p, first_where(entries, p)->0));
        } else {
            lemma_fetch_plan_is_what_entries_read(entries, default_id, global_id);
        }
    }
    to_fetch
}

/// A plan that fails for the first `n` entries fails in the same way for all
/// of them.
pub proof fn lemma_fetch_plan_fails_later(
    entries: Seq<ContentEntryView>,
    default_id: Option<Seq<char>>,
    global_id: Option<Seq<char>>,
    n: int,
)
    requires
        0 <= n <= entries.len(),
        fetch_plan(entries.take(n), default_id, global_id) is Err,
    ensures
        fetch_plan(entries, default_id, global_id) == fetch_plan(
            entries.take(n),
            default_id,
            global_id,
        ),
    decreases entries.len(),
{
    if n < entries.len() {
        let front = entries.drop_last();
        assert(front.take(n) =~= entries.take(n));
        lemma_fetch_plan_fails_later(front, default_id, global_id, n);
    } else {
        assert(entries.take(n) =~= entries);
    }
}

/// The value of one entry, read from the fetched vault items.
///
/// An entry that reads a vault item needs the item among the fetched ones,
/// and selects its value from it. An entry that reads none stands on the
/// value it gives outright.
pub open spec fn entry_value(
    entry: ContentEntryView,
    default_id: Option<Seq<char>>,
    fetched: Map<Seq<char>, BitwardenItemView>,
) -> Result<Seq<char>, BitwardenSecretErrorView> {
    match resolved_id(entry, default_id) {
        Some(id) => if fetched.contains_key(id) {
            secret_value(entry, fetched[id], id)
        } else {
            Err(BitwardenSecretErrorView::MissingBitwardenId(entry.kubernetes_secret_key))
        },
        None => match entry.kubernetes_secret_value {
            Some(value) => Ok(value),
            None => Err(
                BitwardenSecretErrorView::MissingBitwardenId(entry.kubernetes_secret_key),
            ),
        },
    }
}

/// The data of the secret: for each entry its value, encoded in UTF-8, under
/// the entry's key, a later entry overriding an earlier one of the same key;
/// or the error of the first entry whose value cannot be had.
pub open spec fn secret_data(
    entries: Seq<ContentEntryView>,
    default_id: Option<Seq<char>>,
    fetched: Map<Seq<char>, BitwardenItemView>,
) -> Result<Map<Seq<char>, Seq<u8>>, BitwardenSecretErrorView>
    decreases entries.len(),
{
    if entries.len() == 0 {
        Ok(Map::empty())
    } else {
        let entry = entries.last();
        match secret_data(entries.drop_last(), default_id, fetched) {
            Err(error) => Err(error),
            Ok(data) => match entry_value(entry, default_id, fetched) {
                Err(error) => Err(error),
                Ok(value) => Ok(data.insert(entry.kubernetes_secret_key, encode_utf8(value))),
            },
        }
    }
}

/// For each entry its key and its value encoded in UTF-8, in the order of the
/// entries.
pub open spec fn entry_pairs(
    entries: Seq<ContentEntryView>,
    default_id: Option<Seq<char>>,
    fetched: Map<Seq<char>, BitwardenItemView>,
) -> Seq<(Seq<char>, Seq<u8>)> {
    Seq::new(
        entries.len(),
        |i: int|
            (
                entries[i].kubernetes_secret_key,
                encode_utf8(entry_value(entries[i], default_id, fetched)->Ok_0),
            ),
    )
}

/// The test that the value of an entry cannot be had.
pub open spec fn without_value(
    default_id: Option<Seq<char>>,
    fetched: Map<Seq<char>, BitwardenItemView>,
) -> spec_fn(ContentEntryView) -> bool {
    |entry: ContentEntryView| entry_value(entry, default_id, fetched) is Err
}

/// Where the value of every entry can be had, the data is the mapping of the
/// entries' keys to their values, read in the order of the entries.
pub proof fn lemma_secret_data_of_entries_with_values(
    entries: Seq<ContentEntryView>,
    default_id: Option<Seq<char>>,
    fetched: Map<Seq<char>, BitwardenItemView>,
)
    requires
        forall|i: int|
            0 <= i < entries.len() ==> entry_value(#[trigger] entries[i], default_id, fetched)
                is Ok,
    ensures
        secret_data(entries, default_id, fetched) == Ok::<
            Map<Seq<char>, Seq<u8>>,
            BitwardenSecretErrorView,
        >(map_of(entry_pairs(entries, default_id, fetched))),
    decreases entries.len(),
{
    if entries.len() > 0 {
        let front = entries.drop_last();
        assert forall|i: int| 0 <= i < front.len() implies entry_value(
            #[trigger] front[i],
            default_id,
            fetched,
        ) is Ok by {
            assert(front[i] == entries[i]);
        }
        lemma_secret_data_of_entries_with_values(front, default_id, fetched);
        assert(entry_pairs(entries, default_id, fetched).drop_last() =~= entry_pairs(
            front,
            default_id,
            fetched,
        ));
    }
}

/// Where the value of some entry cannot be had, no data is had, and the error
/// is that of the first such entry.
pub proof fn lemma_secret_data_fails_as_first_entry_without_value(
    entries: Seq<ContentEntryView>,
    default_id: Option<Seq<char>>,
    fetched: Map<Seq<char>, BitwardenItemView>,
    i: int,
)
    requires
        is_first_where(entries, without_value(default_id, fetched), i),
    ensures
        secret_data(entries, default_id, fetched) == Err::<
            Map<Seq<char>, Seq<u8>>,
            BitwardenSecretErrorView,
        >(entry_value(entries[i], default_id, fetched)->Err_0),
    decreases entries.len(),
{
    let p = without_value(default_id, fetched);
    let front = entries.drop_last();
    if i == entries.len() - 1 {
        assert forall|j: int| 0 <= j < front.len() implies entry_value(
            #[trigger] front[j],
            default_id,
            fetched,
        ) is Ok by {
            assert(front[j] == entries[j]);
        }
        lemma_secret_data_of_entries_with_values(front, default_id, fetched);
    } else {
        assert(is_first_where(front, p, i)) by {
            assert forall|j: int| 0 <= j < i implies !p(#[trigger] front[j]) by {
                assert(front[j] == entries[j]);
            }
        }
        lemma_secret_data_fails_as_first_entry_without_value(front, default_id, fetched, i);
    }
}

/// Data that cannot be had for the first `n` entries cannot be had for all of
/// them, for the same reason.
pub proof fn lemma_secret_data_fails_later(
    entries: Seq<ContentEntryView>,
    default_id: Option<Seq<char>>,
    fetched: Map<Seq<char>, BitwardenItemView>,
    n: int,
)
    requires
        0 <= n <= entries.len(),
        secret_data(entries.take(n), default_id, fetched) is Err,
    ensures
        secret_data(entries, default_id, fetched) == secret_data(
            entries.take(n),
            default_id,
            fetched,
        ),
    decreases entries.len(),
{
    if n < entries.len() {
        let front = entries.drop_last();
        assert(front.take(n) =~= entries.take(n));
        lemma_secret_data_fails_later(front, default_id, fetched, n);
    } else {
        assert(entries.take(n) =~= entries);
    }
}

/// Reads the value of one entry from the fetched vault items.
fn get_entry_value(
    entry: &ContentEntry,
    bitwarden_secret: &BitwardenSecret,
    fetched: &StringMap<BitwardenItem>,
) -> (value: Result<String, BitwardenSecretError>)
    ensures
        result_view(value) == entry_value(entry@, bitwarden_secret@.spec.bitwarden_id, fetched@),
{
    match get_bitwarden_id(entry, bitwarden_secret) {
        Ok(bitwarden_id) => match fetched.get(bitwarden_id.as_str()) {
            Some(bitwarden_data) => get_secret_value(entry, bitwarden_data, bitwarden_id.as_str()),
            None => Err(
                BitwardenSecretError::MissingBitwardenId(entry.kubernetes_secret_key.clone()),
            ),
        },
        Err(error) => match &entry.kubernetes_secret_value {
            Some(value) => Ok(value.clone()),
            None => Err(error),
        },
    }
}

/// Builds the data of the secret from the fetched vault items.
pub fn generate_secret_data(
    bitwarden_secret: &BitwardenSecret,
    fetched: &StringMap<BitwardenItem>,
) -> (generated: Result<StringMap<Vec<u8>>, BitwardenSecretError>)
    ensures
        result_view(generated) == secret_data(
            bitwarden_secret@.spec.content,
            bitwarden_secret@.spec.bitwarden_id,
            fetched@,
        ),
{
    let ghost entries = bitwarden_secret@.spec.content;
    let ghost default_id = bitwarden_secret@.spec.bitwarden_id;
    let mut data: StringMap<Vec<u8>> = StringMap::new();
    let mut i: usize = 0;
    while i < bitwarden_secret.spec.content.len()
        invariant
            i <= bitwarden_secret.spec.content.len(),
            entries == bitwarden_secret@.spec.content,
            entries.len() == bitwarden_secret.spec.content.len(),
            default_id == bitwarden_secret@.spec.bitwarden_id,
            secret_data(entries.take(i as int), default_id, fetched@) == Ok::<
                Map<Seq<char>, Seq<u8>>,
                BitwardenSecretErrorView,
            >(data@),
        decreases bitwarden_secret.spec.content.len() - i,
    {
        let entry = &bitwarden_secret.spec.content[i];
        proof {
            assert(entries.take(i + 1).drop_last() =~= entries.take(i as int));
        }
        match get_entry_value(entry, bitwarden_secret, fetched) {
            Ok(secret_value) => {
                data.insert(
                    entry.kubernetes_secret_key.clone(),
                    secret_value.as_str().as_bytes_vec(),
                );
            },
            Err(error) => {
                proof {
                    lemma_secret_data_fails_later(entries, default_id, fetched@, i + 1);
                }
                return Err(error);
            },
        }
        i += 1;
    }
    proof {
        assert(entries.take(i as int) =~= entries);
    }
    Ok(data)
}

/// Text of the content hash that is put on every generated secret.
pub const CONTENT_HASH: &'static str = "test";

/// The labels that every generated secret bears: the content hash, and the
/// second at which the secret was generated.
pub open spec fn stamped_labels(now: Timestamp) -> Map<Seq<char>, Seq<char>> {
    Map::<Seq<char>, Seq<char>>::empty().insert(OPERATOR_HASH_LABEL@, CONTENT_HASH@).insert(
        OPERATOR_LAST_UPDATE_LABEL@,
        decimal_text(now.secs as int),
    )
}

/// The mapping that an optional mapping gives: an empty one where there is
/// none.
pub open spec fn map_or_empty(m: Option<Map<Seq<char>, Seq<char>>>) -> Map<Seq<char>, Seq<char>> {
    match m {
        Some(m) => m,
        None => Map::empty(),
    }
}

/// The text that an optional text gives, `fallback` standing in for a
/// missing one.
pub open spec fn text_or(text: Option<Seq<char>>, fallback: Option<Seq<char>>) -> Seq<char> {
    match text {
        Some(text) => text,
        None => fallback->0,
    }
}

/// Whether the name and the namespace of the secret to generate are known:
/// each is given by the resource's spec, or else by its metadata.
pub open spec fn has_target(secret: BitwardenSecretView) -> bool {
    &&& secret.spec.name is Some || secret.metadata.name is Some
    &&& secret.spec.namespace is Some || secret.metadata.namespace is Some
}

/// The secret that `secret` asks for, generated at `now` from the vault items
/// `fetched`, or the reason why it cannot be generated.
///
/// Planning the vault items to fetch comes first, so a spec with an entry that
/// lacks a source fails as the plan does, whatever was fetched. The secret
/// bears the stamped labels, overlaid with the labels that the spec gives.
pub open spec fn generated_secret(
    secret: BitwardenSecretView,
    owner: OwnerReferenceView,
    fetched: Map<Seq<char>, BitwardenItemView>,
    now: Timestamp,
) -> Result<MaterializedSecretView, BitwardenSecretErrorView> {
    match fetch_plan(secret.spec.content, secret.spec.bitwarden_id, secret.spec.bitwarden_id) {
        Err(error) => Err(error),
        Ok(_) => match secret_data(secret.spec.content, secret.spec.bitwarden_id, fetched) {
            Err(error) => Err(error),
            Ok(data) => Ok(
                MaterializedSecretView {
                    name: text_or(secret.spec.name, secret.metadata.name),
                    namespace: text_or(secret.spec.namespace, secret.metadata.namespace),
                    owner_references: seq![owner],
                    data: data,
                    string_data: map_or_empty(secret.spec.string_data),
                    labels: stamped_labels(now).union_prefer_right(
                        map_or_empty(secret.spec.labels),
                    ),
                },
            ),
        },
    }
}

/// Where at least one entry lacks a source, no secret is generated, whatever
/// was fetched: the error names the key of the first entry that lacks one.
pub proof fn lemma_generated_secret_fails_on_a_lacking_entry(
    secret: BitwardenSecretView,
    owner: OwnerReferenceView,
    fetched: Map<Seq<char>, BitwardenItemView>,
    now: Timestamp,
    i: int,
)
    requires
        0 <= i < secret.spec.content.len(),
        lacks_source(secret.spec.content[i], secret.spec.bitwarden_id, secret.spec.bitwarden_id),
    ensures
        first_where(
            secret.spec.content,
            lacking(secret.spec.bitwarden_id, secret.spec.bitwarden_id),
        ) is Some,
        ({
            let first = first_where(
                secret.spec.content,
                lacking(secret.spec.bitwarden_id, secret.spec.bitwarden_id),
            )->0;
            &&& 0 <= first <= i
            &&& generated_secret(secret, owner, fetched, now) == Err::<
                MaterializedSecretView,
                BitwardenSecretErrorView,
            >(
                BitwardenSecretErrorView::MissingBitwardenId(
                    secret.spec.content[first].kubernetes_secret_key,
                ),
            )
        }),
{
    lemma_fetch_plan_fails_on_a_lacking_entry(
        secret.spec.content,
        secret.spec.bitwarden_id,
        secret.spec.bitwarden_id,
        i,
    );
}

/// The stamped labels are the content hash and the second of generation,
/// under two different names.
pub proof fn lemma_stamped_labels(now: Timestamp)
    ensures
        OPERATOR_HASH_LABEL@ != OPERATOR_LAST_UPDATE_LABEL@,
        stamped_labels(now).dom() =~= set![OPERATOR_HASH_LABEL@, OPERATOR_LAST_UPDATE_LABEL@],
        stamped_labels(now)[OPERATOR_HASH_LABEL@] == CONTENT_HASH@,
        stamped_labels(now)[OPERATOR_LAST_UPDATE_LABEL@] == decimal_text(now.secs as int),
{
    reveal_strlit("bitwarden-secret-operator-rs.io/hash");
    reveal_strlit("bitwarden-secret-operator-rs.io/last-update");
    assert(OPERATOR_HASH_LABEL@.len() != OPERATOR_LAST_UPDATE_LABEL@.len());
}

/// On a generated secret a label that the spec gives stands as given, and
/// beside those stand the stamped labels whose names the spec does not use.
pub proof fn lemma_labels_of_generated_secret(
    secret: BitwardenSecretView,
    owner: OwnerReferenceView,
    fetched: Map<Seq<char>, BitwardenItemView>,
    now: Timestamp,
    key: Seq<char>,
)
    requires
        generated_secret(secret, owner, fetched, now) is Ok,
    ensures
        ({
            let labels = generated_secret(secret, owner, fetched, now)->Ok_0.labels;
            let given = map_or_empty(secret.spec.labels);
            let stamped = stamped_labels(now);
            &&& labels.contains_key(key) <==> given.contains_key(key) || stamped.contains_key(key)
            &&& given.contains_key(key) ==> labels[key] == given[key]
            &&& !given.contains_key(key) && stamped.contains_key(key) ==> labels[key]
                == stamped[key]
        }),
{
}

/// The text that `text` gives, `fallback` standing in for a missing one.
fn text_or_fallback(text: &Option<String>, fallback: &Option<String>) -> (chosen: String)
    requires
        text is Some || fallback is Some,
    ensures
        chosen@ == text_or(text.deep_view(), fallback.deep_view()),
{
    match text {
        Some(text) => text.clone(),
        None => match fallback {
            Some(fallback) => fallback.clone(),
            None => String::new(),
        },
    }
}

/// Generates the secret that `bitwarden_secret` asks for, as of `now`, from
/// the vault items `fetched`, each held under the id by which it was fetched.
pub fn generate_secret_at(
    bitwarden_secret: &BitwardenSecret,
    owner: OwnerReference,
    fetched: &StringMap<BitwardenItem>,
    now: Timestamp,
) -> (secret: Result<MaterializedSecret, BitwardenSecretError>)
    requires
        has_target(bitwarden_secret@),
    ensures
        result_view(secret) == generated_secret(bitwarden_secret@, owner@, fetched@, now),
        forall|i: int|
            is_first_where(
                bitwarden_secret@.spec.content,
                lacking(bitwarden_secret@.spec.bitwarden_id, bitwarden_secret@.spec.bitwarden_id),
                i,
            ) ==> result_view(secret) == Err::<MaterializedSecretView, BitwardenSecretErrorView>(
                BitwardenSecretErrorView::MissingBitwardenId(
                    (#[trigger] bitwarden_secret@.spec.content[i]).kubernetes_secret_key,
                ),
            ),
{
    proof {
        assert forall|i: int|
            is_first_where(
                bitwarden_secret@.spec.content,
                lacking(bitwarden_secret@.spec.bitwarden_id, bitwarden_secret@.spec.bitwarden_id),
                i,
            ) implies generated_secret(bitwarden_secret@, owner@, fetched@, now) == Err::<
            MaterializedSecretView,
            BitwardenSecretErrorView,
        >(
            BitwardenSecretErrorView::MissingBitwardenId(
                (#[trigger] bitwarden_secret@.spec.content[i]).kubernetes_secret_key,
            ),
        ) by {
            lemma_fetch_plan_names_first_lacking_entry(
                bitwarden_secret@.spec.content,
                bitwarden_secret@.spec.bitwarden_id,
                bitwarden_secret@.spec.bitwarden_id,
                i,
            );
        }
    }
    let name = text_or_fallback(&bitwarden_secret.spec.name, &bitwarden_secret.metadata.name);
    let namespace = text_or_fallback(
        &bitwarden_secret.spec.namespace,
        &bitwarden_secret.metadata.namespace,
    );
    let ghost owner_view = owner@;
    let mut owner_references: Vec<OwnerReference> = Vec::new();
    owner_references.push(owner);
    proof {
        assert(owner_references.deep_view() =~= seq![owner_view]);
    }

    let global_bitwarden_id = bitwarden_secret.spec.bitwarden_id.clone();
    match try_get_to_fetch(bitwarden_secret, &bitwarden_secret.spec, global_bitwarden_id) {
        Err(error) => {
            return Err(error);
        },
        Ok(_) => {},
    }

    let data = match generate_secret_data(bitwarden_secret, fetched) {
        Err(error) => {
            return Err(error);
        },
        Ok(data) => data,
    };

    let mut string_data: StringMap<String> = StringMap::new();
    if let Some(given) = &bitwarden_secret.spec.string_data {
        string_data.overlay(given);
    }
    proof {
        assert(string_data@ =~= map_or_empty(bitwarden_secret@.spec.string_data));
    }

    let mut labels: StringMap<String> = StringMap::new();
    labels.insert(String::from_str(OPERATOR_HASH_LABEL), String::from_str(CONTENT_HASH));
    labels.insert(String::from_str(OPERATOR_LAST_UPDATE_LABEL), decimal_string(now.secs));
    if let Some(forwarded_labels) = &bitwarden_secret.spec.labels {
        labels.overlay(forwarded_labels);
    }
    proof {
        assert(labels@ =~= stamped_labels(now).union_prefer_right(
            map_or_empty(bitwarden_secret@.spec.labels),
        ));
    }

    let secret = MaterializedSecret {
        name,
        namespace,
        owner_references,
        data,
        string_data,
        labels,
    };
    proof {
        assert(secret@ =~= generated_secret(bitwarden_secret@, owner_view, fetched@, now)->Ok_0);
    }
    Ok(secret)
}

/// Generates the secret that `bitwarden_secret` asks for, as of the time the
/// clock shows, from the vault items `fetched`.
pub fn generate_secret_from_bitwarden_secret(
    bitwarden_secret: &BitwardenSecret,
    owner: OwnerReference,
    fetched: &StringMap<BitwardenItem>,
) -> (secret: Result<MaterializedSecret, BitwardenSecretError>)
    requires
        has_target(bitwarden_secret@),
    ensures
        exists|now: Timestamp|
            result_view(secret) == #[trigger] generated_secret(
                bitwarden_secret@,
                owner@,
                fetched@,
                now,
            ),
{
    let now = current_time();
    generate_secret_at(bitwarden_secret, owner, fetched, now)
}

} // verus!
