//! Texts as they are shown to a developer.

use vstd::prelude::*;

use crate::table::Table;
use crate::text::{concat3, frames, join, joined, lists_are_joined_part_by_part, texts};

verus! {

/// The text by which the standard library shows a text to a developer, in
/// quotation marks and with escapes.
pub uninterp spec fn shown_text(s: Seq<char>) -> Seq<char>;

/// `format!("{:?}", ..)` of a `str`. The result is named as a function of the
/// text; which characters are escaped, and how, is not stated.
#[verifier::external_body]
pub(crate) fn show_text(s: &str) -> (r: String)
    ensures
        r@ == shown_text(s@),
{
    format!("{:?}", s)
}

/// The texts of a list, as each is shown.
pub open spec fn shown_texts(list: Seq<String>) -> Seq<Seq<char>> {
    list.map_values(|s: String| shown_text(s@))
}

/// A list of texts as it is shown.
pub open spec fn shown_list(list: Seq<String>) -> Seq<char> {
    "["@ + joined(shown_texts(list), ", "@) + "]"@
}

/// An optional list of texts as it is shown.
pub open spec fn shown_opt_list(list: Option<Vec<String>>) -> Seq<char> {
    match list {
        Some(l) => "Some("@ + shown_list(l@) + ")"@,
        None => "None"@,
    }
}

/// The entries of a table, as each is shown.
pub open spec fn shown_entries(entries: Seq<(Seq<char>, Seq<char>)>) -> Seq<Seq<char>> {
    entries.map_values(
        |e: (Seq<char>, Seq<char>)| shown_text(e.0) + ": "@ + shown_text(e.1),
    )
}

/// A table as it is shown.
pub open spec fn shown_table(entries: Seq<(Seq<char>, Seq<char>)>) -> Seq<char> {
    "{"@ + joined(shown_entries(entries), ", "@) + "}"@
}

/// A list of texts as it is shown.
pub fn show_list(list: &Vec<String>) -> (r: String)
    ensures
        r@ == shown_list(list@),
{
    let mut shown: Vec<String> = Vec::new();
    let mut i: usize = 0;
    while i < list.len()
        invariant
            i <= list.len(),
            texts(shown@) == shown_texts(list@.take(i as int)),
        decreases list.len() - i,
    {
        let ghost before = texts(shown@);
        let text: String = show_text(list[i].as_str());
        shown.push(text);
        proof {
            assert(texts(shown@) =~= before.push(text@));
            assert(shown_texts(list@.take(i + 1)) =~= shown_texts(list@.take(i as int)).push(
                text@,
            ));
        }
        i += 1;
    }
    assert(list@.take(i as int) =~= list@);
    concat3("[", join(&shown, ", ").as_str(), "]")
}

/// An optional list of texts as it is shown.
pub fn show_opt_list(list: &Option<Vec<String>>) -> (r: String)
    ensures
        r@ == shown_opt_list(*list),
{
    match list {
        Some(l) => concat3("Some(", show_list(l).as_str(), ")"),
        None => "None".to_owned(),
    }
}

/// A table as it is shown.
pub fn show_table(table: &Table<String>) -> (r: String)
    ensures
        r@ == shown_table(table.entries()),
{
    let ghost entries = table.entries();
    let n: usize = table.len();
    let mut shown: Vec<String> = Vec::new();
    let mut i: usize = 0;
    while i < n
        invariant
            i <= n,
            n == entries.len(),
            entries == table.entries(),
            texts(shown@) == shown_entries(entries.take(i as int)),
        decreases n - i,
    {
        let ghost before = texts(shown@);
        let text: String = concat3(
            show_text(table.key(i).as_str()).as_str(),
            ": ",
            show_text(table.value(i).as_str()).as_str(),
        );
        shown.push(text);
        proof {
            assert(texts(shown@) =~= before.push(text@));
            assert(shown_entries(entries.take(i + 1)) =~= shown_entries(
                entries.take(i as int),
            ).push(text@));
        }
        i += 1;
    }
    assert(entries.take(i as int) =~= entries);
    concat3("{", join(&shown, ", ").as_str(), "}")
}

/// A list is shown in brackets, each text as it is shown alone, with commas
/// between them: a list made of two is shown as their texts one after the other.
pub proof fn lists_are_shown_text_by_text(first: Seq<String>, second: Seq<String>, text: String)
    requires
        first.len() > 0,
        second.len() > 0,
    ensures
        shown_list(Seq::empty()) == "["@ + "]"@,
        shown_list(seq![text]) == "["@ + shown_text(text@) + "]"@,
        ({
            let a = shown_list(first);
            let b = shown_list(second);
            shown_list(first + second) == a.drop_last() + ", "@ + b.drop_first()
        }),
{
    reveal_strlit("[");
    reveal_strlit("]");
    assert(shown_texts(Seq::empty()) =~= Seq::empty());
    assert(shown_list(Seq::empty()) =~= "["@ + "]"@);
    assert(shown_texts(seq![text]) =~= seq![shown_text(text@)]);
    assert(shown_texts(first + second) =~= shown_texts(first) + shown_texts(second));
    lists_are_joined_part_by_part(
        shown_texts(first),
        shown_texts(second),
        shown_text(text@),
        ", "@,
    );
    assert(shown_list(first + second) =~= shown_list(first).drop_last() + ", "@ + shown_list(
        second,
    ).drop_first());
}

/// A list that is there is shown as one that is; where there is none, that is
/// shown.
pub proof fn missing_list_is_shown_as_none(list: Vec<String>)
    ensures
        frames(shown_opt_list(Some(list)), "Some("@, shown_list(list@), ")"@),
        shown_opt_list(None) == "None"@,
{
}

/// A table is shown in braces, each entry with its key and its value as they are
/// shown alone, with commas between them.
pub proof fn tables_are_shown_entry_by_entry(
    first: Seq<(Seq<char>, Seq<char>)>,
    second: Seq<(Seq<char>, Seq<char>)>,
    key: Seq<char>,
    value: Seq<char>,
)
    requires
        first.len() > 0,
        second.len() > 0,
    ensures
        shown_table(Seq::empty()) == "{"@ + "}"@,
        shown_table(seq![(key, value)]) == "{"@ + (shown_text(key) + ": "@ + shown_text(value))
            + "}"@,
        ({
            let a = shown_table(first);
            let b = shown_table(second);
            shown_table(first + second) == a.drop_last() + ", "@ + b.drop_first()
        }),
{
    reveal_strlit("{");
    reveal_strlit("}");
    let entry = shown_text(key) + ": "@ + shown_text(value);
    assert(shown_entries(Seq::empty()) =~= Seq::empty());
    assert(shown_table(Seq::empty()) =~= "{"@ + "}"@);
    assert(shown_entries(seq![(key, value)]) =~= seq![entry]);
    assert(shown_entries(first + second) =~= shown_entries(first) + shown_entries(second));
    lists_are_joined_part_by_part(shown_entries(first), shown_entries(second), entry, ", "@);
    assert(shown_table(first + second) =~= shown_table(first).drop_last() + ", "@ + shown_table(
        second,
    ).drop_first());
}

} // verus!
