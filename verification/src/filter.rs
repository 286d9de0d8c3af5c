//! The bus-name display filter.
//!
//! Besides well-known names like `org.freedesktop.Notifications`, a bus
//! also hands out generated aliases like `:1.42`.  When the application
//! asks for aliases to be filtered, a name is hidden whenever it
//! contains a colon followed by a digit, any character but a newline,
//! and another digit (digits taken as ASCII; bus names are ASCII).

use vstd::prelude::*;
use vstd::string::StrSliceExecFns;

use crate::app::App;
use crate::tokenizer::is_digit_char;

verus! {

/// An alias fragment at position `i` of `s`: `:`, digit, any character
/// but a newline, digit.
pub open spec fn alias_at(s: Seq<char>, i: int) -> bool {
    &&& s[i] == ':'
    &&& is_digit_char(s[i + 1])
    &&& s[i + 2] != '\n'
    &&& is_digit_char(s[i + 3])
}

/// Whether the name contains an alias fragment anywhere.
pub open spec fn is_alias_name(s: Seq<char>) -> bool {
    exists|i: int| 0 <= i && i + 4 <= s.len() && #[trigger] alias_at(s, i)
}

/// Whether `name` contains an alias fragment.
pub fn name_is_alias(name: &str) -> (r: bool)
    ensures
        r == is_alias_name(name@),
{
    let n = name.unicode_len();
    if n < 4 {
        return false;
    }
    let mut i: usize = 0;
    while i <= n - 4
        invariant
            4 <= n == name@.len(),
            0 <= i <= n - 3,
            forall|j: int| 0 <= j < i ==> !alias_at(name@, j),
        decreases n - i,
    {
        if name.get_char(i) == ':' {
            let d1 = name.get_char(i + 1);
            let mid = name.get_char(i + 2);
            let d2 = name.get_char(i + 3);
            if 48 <= d1 as u32 && d1 as u32 <= 57 && mid != '\n' && 48 <= d2 as u32 && d2
                as u32 <= 57 {
                proof {
                    assert(alias_at(name@, i as int));
                }
                return true;
            }
        }
        i += 1;
    }
    false
}

/// The names kept for display: when `filter_aliases` is off nothing is
/// shown, and when it is on every name that is not an alias is shown,
/// in order.
pub open spec fn spec_filtered_names(entries: Seq<String>, filter_aliases: bool) -> Seq<String> {
    entries.filter(|name: String| filter_aliases && !is_alias_name(name@))
}

/// The bus names the list widget should display, in order.
pub fn filter_bus_names(app: &App) -> (r: Vec<String>)
    ensures
        r@ == spec_filtered_names(app.bus_name_state.entries@, app.filter_aliases),
{
    let ghost pred = |name: String| app.filter_aliases && !is_alias_name(name@);
    let entries = &app.bus_name_state.entries;
    let mut r: Vec<String> = Vec::new();
    let mut i: usize = 0;
    while i < entries.len()
        invariant
            0 <= i <= entries@.len(),
            entries == app.bus_name_state.entries,
            r@ == entries@.take(i as int).filter(pred),
            pred == (|name: String| app.filter_aliases && !is_alias_name(name@)),
        decreases entries@.len() - i,
    {
        let keep = app.filter_aliases && !name_is_alias(entries[i].as_str());
        proof {
            assert(entries@.take(i + 1).drop_last() =~= entries@.take(i as int));
            assert(entries@.take(i + 1).last() == entries@[i as int]);
            reveal_with_fuel(Seq::filter, 2);
        }
        if keep {
            r.push(entries[i].clone());
        }
        i += 1;
    }
    proof {
        assert(entries@.take(entries@.len() as int) =~= entries@);
    }
    r
}

/// How many names the filter keeps.
pub fn count_filtered_names(app: &App) -> (r: usize)
    ensures
        r == spec_filtered_names(app.bus_name_state.entries@, app.filter_aliases).len(),
        r <= app.bus_name_state.entries@.len(),
{
    let names = filter_bus_names(app);
    proof {
        app.bus_name_state.entries@.lemma_filter_len(
            |name: String| app.filter_aliases && !is_alias_name(name@),
        );
    }
    names.len()
}

} // verus!
