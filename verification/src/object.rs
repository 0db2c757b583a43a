//! Reading an object literal back: what its text says of keys and values.

use crate::group::{entries_text, entry_text, DeclView, GroupView};
use crate::number::lemma_int_text_chars;
use crate::value::{literal_text, Literal};
use vstd::prelude::*;

verus! {

/// One entry of an object literal: a key and the text of its value.
pub ghost struct Entry {
    pub key: Seq<char>,
    pub value: Seq<char>,
}

/// The place of the first `c` in `text`, or the length of `text` if it
/// holds none.
pub open spec fn first_index(text: Seq<char>, c: char) -> nat
    decreases text.len(),
{
    if text.len() == 0 || text[0] == c {
        0
    } else {
        1 + first_index(text.drop_first(), c)
    }
}

/// Reads entries up to the closing bracket. A key runs up to the first
/// colon and a value up to the first comma; a space follows each of the two.
/// `None` where the text is not of that form.
pub open spec fn parse_entries(text: Seq<char>) -> Option<Seq<Entry>>
    decreases text.len(),
{
    if text == seq!['}'] {
        Some(Seq::empty())
    } else {
        let colon = first_index(text, ':') as int;
        if colon + 1 < text.len() && text[colon + 1] == ' ' {
            let rest = text.skip(colon + 2);
            let comma = first_index(rest, ',') as int;
            if comma + 1 < rest.len() && rest[comma + 1] == ' ' {
                match parse_entries(rest.skip(comma + 2)) {
                    Some(entries) => Some(
                        seq![Entry { key: text.take(colon), value: rest.take(comma) }] + entries,
                    ),
                    None => None,
                }
            } else {
                None
            }
        } else {
            None
        }
    }
}

/// Reads an object literal: `{ `, then entries up to the closing bracket.
pub open spec fn parse_object(text: Seq<char>) -> Option<Seq<Entry>> {
    if text.len() >= 2 && text[0] == '{' && text[1] == ' ' {
        parse_entries(text.skip(2))
    } else {
        None
    }
}

/// The entry that a constant stands for: its name and its value's text.
pub open spec fn entry_of(decl: DeclView) -> Entry {
    Entry { key: decl.name, value: literal_text(decl.value) }
}

/// The entries of a list of constants, in their order.
pub open spec fn entries_of(consts: Seq<DeclView>) -> Seq<Entry> {
    consts.map_values(|decl: DeclView| entry_of(decl))
}

/// A constant whose entry can be told apart from its neighbours: no colon
/// in its name and no comma in the text of its value.
pub open spec fn is_plain(decl: DeclView) -> bool {
    !decl.name.contains(':') && !literal_text(decl.value).contains(',')
}

/// `first_index` finds `c` at `at` when it stands there and nowhere before.
proof fn lemma_first_index(text: Seq<char>, c: char, at: int)
    requires
        0 <= at <= text.len(),
        forall|j: int| 0 <= j < at ==> text[j] != c,
        at < text.len() ==> text[at] == c,
    ensures
        first_index(text, c) == at,
    decreases at,
{
    if at > 0 {
        lemma_first_index(text.drop_first(), c, at - 1);
    }
}

/// `first_index` is at most the place of any `c` in `text`.
proof fn lemma_first_index_bound(text: Seq<char>, c: char, at: int)
    requires
        0 <= at < text.len(),
        text[at] == c,
    ensures
        first_index(text, c) <= at,
    decreases at,
{
    if text[0] != c {
        lemma_first_index_bound(text.drop_first(), c, at - 1);
    }
}

/// The entries of a list are the entry of its first constant, then the
/// entries of the others.
proof fn lemma_entries_text_front(consts: Seq<DeclView>)
    requires
        consts.len() > 0,
    ensures
        entries_text(consts) == entry_text(consts.first()) + entries_text(consts.drop_first()),
    decreases consts.len(),
{
    let init = consts.drop_last();
    if consts.len() == 1 {
        assert(entries_text(init) == Seq::<char>::empty());
    } else {
        lemma_entries_text_front(init);
        assert(init.drop_first() =~= consts.drop_first().drop_last());
    }
}

/// Reading one plain entry: the key and the value come back, and reading
/// goes on behind the entry.
proof fn lemma_parse_step(key: Seq<char>, value: Seq<char>, after: Seq<char>)
    requires
        !key.contains(':'),
        !value.contains(','),
    ensures
        parse_entries(key + seq![':', ' '] + value + seq![',', ' '] + after) == match parse_entries(
            after,
        ) {
            Some(entries) => Some(seq![Entry { key, value }] + entries),
            None => None,
        },
{
    let text = key + seq![':', ' '] + value + seq![',', ' '] + after;
    let colon = key.len() as int;
    let comma = value.len() as int;
    lemma_first_index(text, ':', colon);
    let rest = text.skip(colon + 2);
    lemma_first_index(rest, ',', comma);
    assert(text.take(colon) =~= key);
    assert(rest.take(comma) =~= value);
    assert(rest.skip(comma + 2) =~= after);
}

/// Reading an entry whose name holds a colon, or whose value holds a comma:
/// what is read first, if anything, is another entry.
proof fn lemma_parse_step_not_plain(key: Seq<char>, value: Seq<char>, after: Seq<char>)
    requires
        key.contains(':') || value.contains(','),
    ensures
        match parse_entries(key + seq![':', ' '] + value + seq![',', ' '] + after) {
            Some(entries) => entries.len() > 0 && entries[0] != Entry { key, value },
            None => true,
        },
{
    let text = key + seq![':', ' '] + value + seq![',', ' '] + after;
    if key.contains(':') {
        // The key that is read ends at the first colon, inside `key`.
        let at = choose|at: int| 0 <= at < key.len() && key[at] == ':';
        lemma_first_index_bound(text, ':', at);
    } else {
        // The key is read in full, and the value ends at the first comma,
        // inside `value`.
        lemma_first_index(text, ':', key.len() as int);
        let rest = text.skip(key.len() as int + 2);
        let at = choose|at: int| 0 <= at < value.len() && value[at] == ',';
        lemma_first_index_bound(rest, ',', at);
    }
}

proof fn lemma_parse_entries(consts: Seq<DeclView>)
    requires
        forall|i: int| 0 <= i < consts.len() ==> is_plain(#[trigger] consts[i]),
    ensures
        parse_entries(entries_text(consts) + seq!['}']) == Some(entries_of(consts)),
    decreases consts.len(),
{
    if consts.len() > 0 {
        let head = consts.first();
        let tail = consts.drop_first();
        let after = entries_text(tail) + seq!['}'];
        lemma_entries_text_front(consts);
        assert(entries_text(consts) + seq!['}'] =~= head.name + seq![':', ' '] + literal_text(
            head.value,
        ) + seq![',', ' '] + after);
        lemma_parse_step(head.name, literal_text(head.value), after);
        lemma_parse_entries(tail);
        assert(seq![entry_of(head)] + entries_of(tail) =~= entries_of(consts));
    }
}

proof fn lemma_parse_entries_only_plain(consts: Seq<DeclView>)
    requires
        parse_entries(entries_text(consts) + seq!['}']) == Some(entries_of(consts)),
    ensures
        forall|i: int| 0 <= i < consts.len() ==> is_plain(#[trigger] consts[i]),
    decreases consts.len(),
{
    if consts.len() > 0 {
        let head = consts.first();
        let tail = consts.drop_first();
        let after = entries_text(tail) + seq!['}'];
        lemma_entries_text_front(consts);
        assert(entries_text(consts) + seq!['}'] =~= head.name + seq![':', ' '] + literal_text(
            head.value,
        ) + seq![',', ' '] + after);
        if is_plain(head) {
            lemma_parse_step(head.name, literal_text(head.value), after);
            let rest = parse_entries(after)->0;
            assert((seq![entry_of(head)] + rest).skip(1) =~= rest);
            assert(entries_of(consts).skip(1) =~= entries_of(tail));
            lemma_parse_entries_only_plain(tail);
            assert forall|i: int| 0 <= i < consts.len() implies is_plain(
                #[trigger] consts[i],
            ) by {
                if i > 0 {
                    assert(consts[i] == tail[i - 1]);
                }
            }
        } else {
            lemma_parse_step_not_plain(head.name, literal_text(head.value), after);
        }
    }
}

/// The text of an integer or of a boolean holds no comma, so a constant
/// with such a value is plain as soon as its name holds no colon.
pub proof fn lemma_number_is_plain(decl: DeclView)
    requires
        decl.value is Int || decl.value is Bool,
        !decl.name.contains(':'),
    ensures
        is_plain(decl),
{
    if let Literal::Int(i) = decl.value {
        lemma_int_text_chars(i);
    }
}

/// The object literal of a group can be read back. Its text gives exactly
/// the names of the constants, each with the text of its value, in the order
/// of their declaration, if and only if every constant is plain: no name
/// holds a colon and no value's text a comma.
pub proof fn lemma_inline_parses(group: GroupView)
    ensures
        parse_object(group.inline()) == Some(entries_of(group.consts)) <==> forall|i: int|
            0 <= i < group.consts.len() ==> is_plain(#[trigger] group.consts[i]),
{
    let consts = group.consts;
    assert(group.inline().skip(2) =~= entries_text(consts) + seq!['}']);
    if forall|i: int| 0 <= i < consts.len() ==> is_plain(#[trigger] consts[i]) {
        lemma_parse_entries(consts);
    }
    if parse_object(group.inline()) == Some(entries_of(consts)) {
        lemma_parse_entries_only_plain(consts);
    }
}

} // verus!
