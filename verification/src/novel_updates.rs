//! The list of downloaded books that can be updated: how a book is labelled
//! and what a typed choice in the update menus selects.

use vstd::prelude::*;

use crate::text::{
    contains_seq, lemma_contains_within, occurs_at, decimal_repr, lower_seq, parse_unsigned, str_eq, string_push_str, to_ascii_lowercase, trim,
    trim_seq, u64_to_string, unsigned_value, law_decimal_roundtrip, lemma_decimal_lower,
    lemma_decimal_trimmed,
};

verus! {

/// A downloaded book as the update scan reports it.
pub struct NovelUpdateRow {
    pub book_id: String,
    pub book_name: String,
    pub new_count: u64,
    pub local_failed: u64,
    pub is_ignored: bool,
    pub has_update: bool,
}

/// The menu label of a book: a mark when it is ignored, its name and id,
/// then its new chapters, its failed chapters, or both.
pub open spec fn label_text(
    book_id: Seq<char>,
    book_name: Seq<char>,
    new_count: nat,
    local_failed: nat,
    is_ignored: bool,
) -> Seq<char> {
    let marker = if is_ignored {
        "[игнорируется] "@
    } else {
        Seq::<char>::empty()
    };
    let head = marker + "«"@ + book_name + "» ("@ + book_id + ") — "@;
    if new_count > 0 && local_failed > 0 {
        head + "новых глав: "@ + decimal_repr(new_count) + " | неудачных глав: "@ + decimal_repr(
            local_failed,
        )
    } else if new_count > 0 {
        head + "новых глав: "@ + decimal_repr(new_count)
    } else if local_failed > 0 {
        head + "неудачных глав: "@ + decimal_repr(local_failed)
    } else {
        head + "новых глав: 0"@
    }
}

/// The menu label of the book `it`.
pub fn update_label(it: &NovelUpdateRow) -> (r: String)
    ensures
        r@ == label_text(
            it.book_id@,
            it.book_name@,
            it.new_count as nat,
            it.local_failed as nat,
            it.is_ignored,
        ),
{
    let mut s = String::new();
    if it.is_ignored {
        string_push_str(&mut s, "[игнорируется] ");
    }
    string_push_str(&mut s, "«");
    string_push_str(&mut s, it.book_name.as_str());
    string_push_str(&mut s, "» (");
    string_push_str(&mut s, it.book_id.as_str());
    string_push_str(&mut s, ") — ");
    if it.new_count > 0 && it.local_failed > 0 {
        string_push_str(&mut s, "новых глав: ");
        let n = u64_to_string(it.new_count);
        string_push_str(&mut s, n.as_str());
        string_push_str(&mut s, " | неудачных глав: ");
        let f = u64_to_string(it.local_failed);
        string_push_str(&mut s, f.as_str());
    } else if it.new_count > 0 {
        string_push_str(&mut s, "новых глав: ");
        let n = u64_to_string(it.new_count);
        string_push_str(&mut s, n.as_str());
    } else if it.local_failed > 0 {
        string_push_str(&mut s, "неудачных глав: ");
        let f = u64_to_string(it.local_failed);
        string_push_str(&mut s, f.as_str());
    } else {
        string_push_str(&mut s, "новых глав: 0");
    }
    s
}

/// Whether the scan announces the book as it goes: it has an update and is
/// not ignored.
pub fn announces_update(it: &NovelUpdateRow) -> (r: bool)
    ensures
        r == (it.has_update && !it.is_ignored),
{
    it.has_update && !it.is_ignored
}

/// What a typed choice in an update menu selects.
#[derive(Clone, Copy, Debug, PartialEq, Eq, Structural)]
pub enum UpdateChoice {
    /// `q`: leave the menu.
    Quit,
    /// The text is not a number.
    NotANumber,
    /// The book at this position (from 0) of the list.
    Book(usize),
    /// The entry that opens the list of books without updates.
    NoUpdatesList,
    /// The number names no entry; the menu's entries go up to this number.
    OutOfRange(usize),
}

/// The typed choice `input` read as a number, when it is one.
pub open spec fn choice_number(input: Seq<char>) -> Option<int> {
    match unsigned_value(lower_seq(trim_seq(input))) {
        Some(n) => if n <= usize::MAX {
            Some(n)
        } else {
            None
        },
        None => None,
    }
}

/// What `input` selects in the update menu with `updates` books that have
/// updates and `no_updates` that have none; the entry after the books opens
/// the second list when it is not empty.
pub open spec fn update_menu_choice(input: Seq<char>, updates: nat, no_updates: nat) -> UpdateChoice {
    if lower_seq(trim_seq(input)) == "q"@ {
        UpdateChoice::Quit
    } else {
        match choice_number(input) {
            None => UpdateChoice::NotANumber,
            Some(n) => if 1 <= n <= updates {
                UpdateChoice::Book((n - 1) as usize)
            } else if no_updates > 0 && n == updates + 1 {
                UpdateChoice::NoUpdatesList
            } else if no_updates > 0 {
                UpdateChoice::OutOfRange((updates + 1) as usize)
            } else {
                UpdateChoice::OutOfRange(updates as usize)
            },
        }
    }
}

/// Reads the choice `input` as `q` or a number.
fn read_choice(input: &str) -> (r: (bool, Option<u64>))
    ensures
        r.0 == (lower_seq(trim_seq(input@)) == "q"@),
        !r.0 ==> match choice_number(input@) {
            Some(n) => r.1 is Some && r.1.unwrap() == n,
            None => r.1 is None,
        },
{
    let t = trim(input);
    let sel = to_ascii_lowercase(t.as_str());
    if str_eq(sel.as_str(), "q") {
        return (true, None);
    }
    (false, parse_unsigned(sel.as_str(), usize::MAX as u64))
}

/// What `input` selects in the update menu.
pub fn parse_update_menu_choice(input: &str, updates: usize, no_updates: usize) -> (r: UpdateChoice)
    requires
        updates < usize::MAX,
    ensures
        r == update_menu_choice(input@, updates as nat, no_updates as nat),
{
    let (quit, num) = read_choice(input);
    if quit {
        return UpdateChoice::Quit;
    }
    match num {
        None => UpdateChoice::NotANumber,
        Some(n) => {
            if n >= 1 && n <= updates as u64 {
                UpdateChoice::Book((n - 1) as usize)
            } else if no_updates > 0 && n == updates as u64 + 1 {
                UpdateChoice::NoUpdatesList
            } else if no_updates > 0 {
                UpdateChoice::OutOfRange(updates + 1)
            } else {
                UpdateChoice::OutOfRange(updates)
            }
        },
    }
}

/// What `input` selects in a plain list of `len` books.
pub open spec fn list_choice(input: Seq<char>, len: nat) -> UpdateChoice {
    if lower_seq(trim_seq(input)) == "q"@ {
        UpdateChoice::Quit
    } else {
        match choice_number(input) {
            None => UpdateChoice::NotANumber,
            Some(n) => if 1 <= n <= len {
                UpdateChoice::Book((n - 1) as usize)
            } else {
                UpdateChoice::OutOfRange(len as usize)
            },
        }
    }
}

/// What `input` selects in a plain list of `len` books.
pub fn parse_list_choice(input: &str, len: usize) -> (r: UpdateChoice)
    ensures
        r == list_choice(input@, len as nat),
{
    let (quit, num) = read_choice(input);
    if quit {
        return UpdateChoice::Quit;
    }
    match num {
        None => UpdateChoice::NotANumber,
        Some(n) => {
            if n >= 1 && n <= len as u64 {
                UpdateChoice::Book((n - 1) as usize)
            } else {
                UpdateChoice::OutOfRange(len)
            }
        },
    }
}

/// Every listed book can be chosen by its number: typing `n`, for `n` from
/// 1 to the number of books with updates, chooses the book at position
/// `n - 1`; the number after them opens the list of books without updates
/// when there are any; any other number is out of range, and the message
/// names the last number of the menu. A plain list of books works the same
/// way without the extra entry.
pub proof fn law_update_menu_numbers(n: nat, updates: nat, no_updates: nat)
    requires
        updates < usize::MAX,
        n <= usize::MAX,
    ensures
        1 <= n <= updates ==> update_menu_choice(decimal_repr(n), updates, no_updates)
            == UpdateChoice::Book((n - 1) as usize),
        no_updates > 0 ==> update_menu_choice(decimal_repr(updates + 1), updates, no_updates)
            == UpdateChoice::NoUpdatesList,
        no_updates > 0 && (n == 0 || n > updates + 1) ==> update_menu_choice(
            decimal_repr(n),
            updates,
            no_updates,
        ) == UpdateChoice::OutOfRange((updates + 1) as usize),
        no_updates == 0 && (n == 0 || n > updates) ==> update_menu_choice(
            decimal_repr(n),
            updates,
            no_updates,
        ) == UpdateChoice::OutOfRange(updates as usize),
        1 <= n <= updates ==> list_choice(decimal_repr(n), updates) == UpdateChoice::Book(
            (n - 1) as usize,
        ),
        n == 0 || n > updates ==> list_choice(decimal_repr(n), updates) == UpdateChoice::OutOfRange(
            updates as usize,
        ),
{
    lemma_number_typed(n);
    lemma_number_typed(updates + 1);
}

/// `q` in either case, with surrounding whitespace, leaves both menus.
pub proof fn law_update_menu_quit(input: Seq<char>, updates: nat, no_updates: nat)
    ensures
        lower_seq(trim_seq(input)) == "q"@ ==> update_menu_choice(input, updates, no_updates)
            == UpdateChoice::Quit && list_choice(input, updates) == UpdateChoice::Quit,
{
}

/// A number typed in its decimal notation reads as that number and not as
/// `q`.
proof fn lemma_number_typed(n: nat)
    ensures
        lower_seq(trim_seq(decimal_repr(n))) != "q"@,
        unsigned_value(lower_seq(trim_seq(decimal_repr(n)))) == Some(n as int),
{
    lemma_decimal_trimmed(n);
    lemma_decimal_lower(n);
    law_decimal_roundtrip(n);
    reveal_strlit("q");
    assert("q"@[0] == 'q');
}


/// A text holds itself.
proof fn lemma_contains_self(p: Seq<char>)
    ensures
        contains_seq(p, p),
{
    assert(p.subrange(0, p.len() as int) =~= p);
    assert(occurs_at(p, p, 0));
}

/// The label of a book in the update menu starts with the ignored mark
/// exactly when the book is ignored, names the book and its id, and gives
/// the count of new chapters and of failed chapters whenever there are any,
/// or says there are no new chapters.
#[verifier::spinoff_prover]
pub proof fn law_update_label_parts(
    book_id: Seq<char>,
    book_name: Seq<char>,
    new_count: nat,
    local_failed: nat,
    is_ignored: bool,
)
    ensures
        is_ignored ==> label_text(book_id, book_name, new_count, local_failed, is_ignored).take(
            "[игнорируется] "@.len() as int,
        ) == "[игнорируется] "@,
        !is_ignored ==> label_text(book_id, book_name, new_count, local_failed, is_ignored)[0]
            == '«',
        contains_seq(
            label_text(book_id, book_name, new_count, local_failed, is_ignored),
            "«"@ + book_name + "» ("@ + book_id + ") — "@,
        ),
        new_count > 0 ==> contains_seq(
            label_text(book_id, book_name, new_count, local_failed, is_ignored),
            "новых глав: "@ + decimal_repr(new_count),
        ),
        local_failed > 0 ==> contains_seq(
            label_text(book_id, book_name, new_count, local_failed, is_ignored),
            "неудачных глав: "@ + decimal_repr(local_failed),
        ),
        new_count == 0 && local_failed == 0 ==> contains_seq(
            label_text(book_id, book_name, new_count, local_failed, is_ignored),
            "новых глав: 0"@,
        ),
{
    let marker = if is_ignored {
        "[игнорируется] "@
    } else {
        Seq::<char>::empty()
    };
    let who = "«"@ + book_name + "» ("@ + book_id + ") — "@;
    let tail = label_tail(new_count, local_failed);
    let t = label_text(book_id, book_name, new_count, local_failed, is_ignored);
    lemma_label_shape(book_id, book_name, new_count, local_failed, is_ignored);
    lemma_label_start(book_id, book_name, tail, is_ignored);
    lemma_contains_self(who);
    lemma_contains_within(marker, who, tail, who);
    lemma_label_counts(marker + who, new_count, local_failed);
}

/// What follows the book's name and id in its label.
spec fn label_tail(new_count: nat, local_failed: nat) -> Seq<char> {
    if new_count > 0 && local_failed > 0 {
        "новых глав: "@ + decimal_repr(new_count) + " | неудачных глав: "@ + decimal_repr(
            local_failed,
        )
    } else if new_count > 0 {
        "новых глав: "@ + decimal_repr(new_count)
    } else if local_failed > 0 {
        "неудачных глав: "@ + decimal_repr(local_failed)
    } else {
        "новых глав: 0"@
    }
}

#[verifier::spinoff_prover]
proof fn lemma_label_shape(
    book_id: Seq<char>,
    book_name: Seq<char>,
    new_count: nat,
    local_failed: nat,
    is_ignored: bool,
)
    ensures
        label_text(book_id, book_name, new_count, local_failed, is_ignored) == (if is_ignored {
            "[игнорируется] "@
        } else {
            Seq::<char>::empty()
        }) + ("«"@ + book_name + "» ("@ + book_id + ") — "@) + label_tail(new_count, local_failed),
{
    let marker = if is_ignored {
        "[игнорируется] "@
    } else {
        Seq::<char>::empty()
    };
    let head = marker + "«"@ + book_name + "» ("@ + book_id + ") — "@;
    let who = "«"@ + book_name + "» ("@ + book_id + ") — "@;
    assert(head =~= marker + who);
    let t = label_text(book_id, book_name, new_count, local_failed, is_ignored);
    assert(t =~= head + label_tail(new_count, local_failed));
}

proof fn lemma_label_start(book_id: Seq<char>, book_name: Seq<char>, tail: Seq<char>, is_ignored: bool)
    ensures
        ({
            let marker = if is_ignored {
                "[игнорируется] "@
            } else {
                Seq::<char>::empty()
            };
            let who = "«"@ + book_name + "» ("@ + book_id + ") — "@;
            &&& is_ignored ==> (marker + who + tail).take("[игнорируется] "@.len() as int)
                == "[игнорируется] "@
            &&& !is_ignored ==> (marker + who + tail)[0] == '«'
        }),
{
    reveal_strlit("«");
    let marker = if is_ignored {
        "[игнорируется] "@
    } else {
        Seq::<char>::empty()
    };
    let who = "«"@ + book_name + "» ("@ + book_id + ") — "@;
    assert(who[0] == '«');
    assert((marker + who + tail).take(marker.len() as int) =~= marker);
}

/// The separator before the failed count is a bar and the failed label.
proof fn lemma_bar_literal()
    ensures
        " | неудачных глав: "@ == " | "@ + "неудачных глав: "@,
{
    reveal_strlit(" | неудачных глав: ");
    reveal_strlit(" | ");
    reveal_strlit("неудачных глав: ");
    assert(" | неудачных глав: "@ =~= " | "@ + "неудачных глав: "@);
}

#[verifier::spinoff_prover]
proof fn lemma_label_counts(head: Seq<char>, new_count: nat, local_failed: nat)
    ensures
        new_count > 0 ==> contains_seq(
            head + label_tail(new_count, local_failed),
            "новых глав: "@ + decimal_repr(new_count),
        ),
        local_failed > 0 ==> contains_seq(
            head + label_tail(new_count, local_failed),
            "неудачных глав: "@ + decimal_repr(local_failed),
        ),
        new_count == 0 && local_failed == 0 ==> contains_seq(
            head + label_tail(new_count, local_failed),
            "новых глав: 0"@,
        ),
{
    let e = Seq::<char>::empty();
    let t = head + label_tail(new_count, local_failed);
    let nw = "новых глав: "@ + decimal_repr(new_count);
    let fl = "неудачных глав: "@ + decimal_repr(local_failed);
    if new_count > 0 && local_failed > 0 {
        lemma_bar_literal();
        lemma_contains_self(nw);
        lemma_contains_within(head, nw, " | "@ + fl, nw);
        assert(head + nw + (" | "@ + fl) =~= t);
        lemma_contains_self(fl);
        lemma_contains_within(head + nw + " | "@, fl, e, fl);
        assert(head + nw + " | "@ + fl + e =~= t);
    } else if new_count > 0 {
        lemma_contains_self(nw);
        lemma_contains_within(head, nw, e, nw);
        assert(head + nw + e =~= t);
    } else if local_failed > 0 {
        lemma_contains_self(fl);
        lemma_contains_within(head, fl, e, fl);
        assert(head + fl + e =~= t);
    } else {
        let z = "новых глав: 0"@;
        lemma_contains_self(z);
        lemma_contains_within(head, z, e, z);
        assert(head + z + e =~= t);
    }
}

} // verus!
