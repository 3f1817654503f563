//! What makes a list of attributes safe to load into a map by name: no
//! name occurs twice, neither among the attributes of a log entry nor
//! among those of its headers.

use crate::attributes::{header_attributes, names, put, AttributeView, LogEntryView};
use crate::text::lemma_first_index;
use vstd::prelude::*;

verus! {

/// Putting a value under a name keeps a list free of double names; the
/// value is then the one found under that name, and what is found under
/// any other name is what was found before.
pub proof fn lemma_put(
    entries: Seq<(Seq<char>, AttributeView)>,
    name: Seq<char>,
    value: AttributeView,
)
    requires
        names(entries).no_duplicates(),
    ensures
        names(put(entries, name, value)).no_duplicates(),
        names(put(entries, name, value)).contains(name),
        forall|i: int|
            0 <= i < entries.len() ==> (#[trigger] put(entries, name, value)[i]) == (if entries[i].0
                == name {
                (name, value)
            } else {
                entries[i]
            }),
{
    let after = put(entries, name, value);
    names(entries).index_of_first_ensures(name);
    match names(entries).index_of_first(name) {
        Some(i) => {
            assert(names(after) =~= names(entries));
            assert forall|j: int| 0 <= j < entries.len() implies (#[trigger] after[j]) == (if entries[j].0
                == name {
                (name, value)
            } else {
                entries[j]
            }) by {
                if j != i {
                    assert(names(entries)[j] != names(entries)[i]);
                }
            }
        },
        None => {
            assert(names(after) =~= names(entries).push(name));
            assert(names(after)[entries.len() as int] == name);
            assert forall|i: int, j: int|
                0 <= i < names(after).len() && 0 <= j < names(after).len() && i
                    != j implies names(after)[i] != names(after)[j] by {
                if i < entries.len() && j < entries.len() {
                    assert(names(entries)[i] != names(entries)[j]);
                } else if i < entries.len() {
                    assert(names(entries).contains(names(entries)[i]));
                } else {
                    assert(names(entries).contains(names(entries)[j]));
                }
            }
            assert forall|j: int| 0 <= j < entries.len() implies (#[trigger] after[j]) == (if entries[j].0
                == name {
                (name, value)
            } else {
                entries[j]
            }) by {
                assert(names(entries).contains(names(entries)[j]));
            }
        },
    }
}

/// No header name occurs twice among the attributes of the headers,
/// however often it occurred among the headers.
pub proof fn lemma_header_names_distinct(headers: Seq<(Seq<char>, Seq<u8>)>, n: nat)
    requires
        n <= headers.len(),
    ensures
        names(header_attributes(headers, n)).no_duplicates(),
    decreases n,
{
    if n > 0 {
        lemma_header_names_distinct(headers, (n - 1) as nat);
        lemma_put(
            header_attributes(headers, (n - 1) as nat),
            headers[n - 1].0,
            crate::attributes::header_attribute_view(headers[n - 1].1),
        );
    }
}

/// No name occurs twice among the attributes of a log entry.
pub proof fn lemma_entry_names_distinct(
    entry: LogEntryView,
    start_text: Seq<char>,
    end_text: Seq<char>,
)
    ensures
        names(entry.attributes(start_text, end_text)).no_duplicates(),
{
    reveal_strlit("id");
    reveal_strlit("status_code");
    reveal_strlit("start");
    reveal_strlit("end");
    reveal_strlit("uri");
    reveal_strlit("response_size");
    reveal_strlit("headers");
    assert("id"@.len() == 2);
    assert("status_code"@.len() == 11);
    assert("start"@.len() == 5);
    assert("end"@.len() == 3);
    assert("uri"@.len() == 3);
    assert("response_size"@.len() == 13);
    assert("headers"@.len() == 7);
    assert("end"@[0] == 'e');
    assert("uri"@[0] == 'u');
    let all = names(entry.attributes(start_text, end_text));
    assert forall|i: int, j: int| 0 <= i < all.len() && 0 <= j < all.len() && i != j implies all[i]
        != all[j] by {
        assert(all[i].len() != all[j].len() || all[i][0] != all[j][0]);
    }
}

} // verus!
