//! The undo commands and widget bookkeeping of the SceneVM UI demo: which
//! application value a slider widget drives, what a button-group change does
//! and undoes, and the labels of the undo/redo history entries.

use vstd::prelude::*;

use crate::text::{compare_text, TextOrder};

verus! {

// ---------------------------------------------------------------------------
// Decimal indices
// ---------------------------------------------------------------------------

/// The value of an ASCII decimal digit.
pub open spec fn digit_value(c: char) -> int {
    (c as int) - ('0' as int)
}

/// True for the ASCII digits `0` to `9`.
pub open spec fn is_digit(c: char) -> bool {
    '0' <= c && c <= '9'
}

/// The number written by a sequence of decimal digits (most significant first).
pub open spec fn decimal_value(d: Seq<char>) -> int
    decreases d.len(),
{
    if d.len() == 0 {
        0
    } else {
        decimal_value(d.drop_last()) * 10 + digit_value(d.last())
    }
}

/// The text after an optional leading `+`.
pub open spec fn digits_part(s: Seq<char>) -> Seq<char> {
    if s.len() > 0 && s[0] == '+' {
        s.skip(1)
    } else {
        s
    }
}

/// What `str::parse::<usize>` gives for a text: an optional leading `+`, then
/// at least one ASCII digit and nothing else, whose value fits in a `usize`.
pub open spec fn parse_usize_spec(s: Seq<char>) -> Option<int> {
    let d = digits_part(s);
    if d.len() > 0 && (forall|i: int| 0 <= i < d.len() ==> is_digit(#[trigger] d[i]))
        && decimal_value(d) <= usize::MAX {
        Some(decimal_value(d))
    } else {
        None
    }
}

proof fn lemma_decimal_value_nonneg(d: Seq<char>)
    requires
        forall|i: int| 0 <= i < d.len() ==> is_digit(#[trigger] d[i]),
    ensures
        decimal_value(d) >= 0,
    decreases d.len(),
{
    if d.len() > 0 {
        lemma_decimal_value_nonneg(d.drop_last());
        assert(is_digit(d[d.len() - 1]));
    }
}

/// Decimal text over all digit strings: a single digit `c` is worth its
/// code point minus that of `'0'` (48), between 0 and 9; appending a digit
/// multiplies the value by ten and adds the digit; and a string of `n` digits
/// is worth less than `10^n`.
pub proof fn lemma_decimal_rules(d: Seq<char>, c: char)
    requires
        forall|i: int| 0 <= i < d.len() ==> is_digit(#[trigger] d[i]),
        '0' <= c <= '9',
    ensures
        decimal_value(seq![c]) == c as int - 48,
        0 <= decimal_value(seq![c]) <= 9,
        decimal_value(d.push(c)) == 10 * decimal_value(d) + (c as int - 48),
        0 <= decimal_value(d) < vstd::arithmetic::power::pow(10, d.len()),
    decreases d.len(),
{
    assert(('0' as int) == 48);
    assert(seq![c].drop_last() =~= Seq::<char>::empty());
    assert(seq![c].last() == c);
    assert(decimal_value(Seq::<char>::empty()) == 0);
    assert(decimal_value(seq![c]) == digit_value(c));
    assert(d.push(c).drop_last() =~= d);
    vstd::arithmetic::power::lemma_pow_positive(10, d.len());
    if d.len() > 0 {
        let t = d.drop_last();
        lemma_decimal_rules(t, d.last());
        assert(t.push(d.last()) =~= d);
        vstd::arithmetic::power::lemma_pow_adds(10, t.len(), 1);
        vstd::arithmetic::power::lemma_pow1(10);
        assert(is_digit(d.last()));
        assert(decimal_value(d) < vstd::arithmetic::power::pow(10, d.len())) by (nonlinear_arith)
            requires
                decimal_value(d) == 10 * decimal_value(t) + (d.last() as int - 48),
                0 <= decimal_value(t) < vstd::arithmetic::power::pow(10, t.len()),
                vstd::arithmetic::power::pow(10, d.len()) == vstd::arithmetic::power::pow(10, t.len()) * 10,
                0 <= d.last() as int - 48 <= 9,
        ;
    } else {
        vstd::arithmetic::power::lemma_pow0(10);
    }
}

/// Parses a decimal `usize` the way `str::parse::<usize>` does.
pub fn parse_usize(s: &str) -> (r: Option<usize>)
    ensures
        match r {
            Some(v) => parse_usize_spec(s@) == Some(v as int),
            None => parse_usize_spec(s@) is None,
        },
{
    let len = s.unicode_len();
    let mut start: usize = 0;
    if len > 0 && s.get_char(0) == '+' {
        start = 1;
    }
    let ghost d = digits_part(s@);
    proof {
        assert(s@.skip(0) =~= s@);
        assert(d =~= s@.skip(start as int));
    }
    if start == len {
        return None;
    }
    let mut value: usize = 0;
    let mut i: usize = start;
    while i < len
        invariant
            len == s@.len(),
            start <= i <= len,
            d == s@.skip(start as int),
            d == digits_part(s@),
            forall|j: int| 0 <= j < i - start ==> is_digit(#[trigger] d[j]),
            value as int == decimal_value(d.take(i - start)),
        decreases len - i,
    {
        let c = s.get_char(i);
        if c < '0' || c > '9' {
            proof {
                assert(d[i - start] == c);
                assert(!is_digit(d[i - start]));
            }
            return None;
        }
        let v = (c as u32 - '0' as u32) as usize;
        proof {
            assert(d[i - start] == c);
            assert(d.take(i - start + 1).drop_last() =~= d.take(i - start));
            assert(d.take(i - start + 1).last() == c);
        }
        if value > (usize::MAX - v) / 10 {
            proof {
                let n = i - start + 1;
                let e = d.take(n);
                assert(decimal_value(e) == value * 10 + v);
                assert(value * 10 + v > usize::MAX) by (nonlinear_arith)
                    requires
                        value > (usize::MAX - v) / 10,
                        v <= 9,
                ;
                if forall|j: int| 0 <= j < d.len() ==> is_digit(#[trigger] d[j]) {
                    prefix_bound(d, n);
                }
            }
            return None;
        }
        value = value * 10 + v;
        i = i + 1;
    }
    proof {
        assert(d.take(len - start) =~= d);
    }
    Some(value)
}

/// A number written by a digit prefix never exceeds the number written by the
/// whole digit sequence, so overflowing on a prefix means overflowing overall.
proof fn prefix_bound(d: Seq<char>, n: int)
    requires
        0 <= n <= d.len(),
        forall|i: int| 0 <= i < d.len() ==> is_digit(#[trigger] d[i]),
    ensures
        decimal_value(d.take(n)) <= decimal_value(d),
    decreases d.len() - n,
{
    if n < d.len() {
        prefix_bound(d, n + 1);
        let t = d.take(n + 1);
        assert(t.drop_last() =~= d.take(n));
        assert forall|i: int| 0 <= i < d.take(n).len() implies is_digit(#[trigger] d.take(n)[i]) by {
            assert(d.take(n)[i] == d[i]);
        }
        lemma_decimal_value_nonneg(d.take(n));
        assert(is_digit(t.last()));
    } else {
        assert(d.take(n) =~= d);
    }
}

// ---------------------------------------------------------------------------
// Slider widgets
// ---------------------------------------------------------------------------

/// The application value a slider widget drives.
#[derive(Debug, Clone, Copy, PartialEq, Eq, Structural)]
pub enum SliderTarget {
    /// The main slider (`main_slider`).
    Main,
    /// The parameter slider with this index (`param_slider_<index>`).
    Param(usize),
    /// No application value: the widget is neither of the above, or its index
    /// is not below the number of parameter sliders.
    Unbound,
}

/// The widget id of the main slider.
pub open spec fn main_slider_id() -> Seq<char> {
    "main_slider"@
}

/// The widget id prefix of the parameter sliders.
pub open spec fn param_slider_prefix() -> Seq<char> {
    "param_slider_"@
}

/// Which value the slider with widget id `id` drives, given how many parameter
/// sliders the application has.
pub open spec fn slider_target_spec(id: Seq<char>, param_count: int) -> SliderTarget {
    if id == main_slider_id() {
        SliderTarget::Main
    } else if id.len() >= param_slider_prefix().len() && id.take(param_slider_prefix().len() as int) == param_slider_prefix() {
        match parse_usize_spec(id.skip(param_slider_prefix().len() as int)) {
            Some(n) => if n < param_count {
                SliderTarget::Param(n as usize)
            } else {
                SliderTarget::Unbound
            },
            None => SliderTarget::Unbound,
        }
    } else {
        SliderTarget::Unbound
    }
}

/// Resolves a slider widget id to the value it drives: `main_slider` drives the
/// main value; `param_slider_<n>` drives parameter `n` when `<n>` parses as a
/// `usize` below `param_count`; any other id drives nothing.
pub fn slider_target(widget_id: &str, param_count: usize) -> (t: SliderTarget)
    ensures
        t == slider_target_spec(widget_id@, param_count as int),
{
    let main = "main_slider";
    let prefix = "param_slider_";
    proof {
        reveal_strlit("param_slider_");
    }
    if compare_text(widget_id, main) == TextOrder::Equal {
        return SliderTarget::Main;
    }
    let len = widget_id.unicode_len();
    let plen = prefix.unicode_len();
    if len < plen {
        return SliderTarget::Unbound;
    }
    let head = widget_id.substring_char(0, plen);
    if compare_text(head, prefix) != TextOrder::Equal {
        return SliderTarget::Unbound;
    }
    let rest = widget_id.substring_char(plen, len);
    match parse_usize(rest) {
        Some(n) => {
            if n < param_count {
                SliderTarget::Param(n)
            } else {
                SliderTarget::Unbound
            }
        },
        None => SliderTarget::Unbound,
    }
}

// ---------------------------------------------------------------------------
// Button groups
// ---------------------------------------------------------------------------

/// The part of the workspace a button-group change touches: the active index
/// of the group (absent when the workspace has no group with the command's id)
/// and the workspace's dirty flag.
#[derive(Debug, Clone, Copy, PartialEq, Eq, Structural)]
pub struct ButtonGroupView {
    pub active: Option<usize>,
    pub dirty: bool,
}

/// Command for button group selection changes.
#[derive(Debug, Clone, PartialEq, Eq)]
pub struct ButtonGroupChangeCommand {
    pub group_id: String,
    pub old_index: usize,
    pub new_index: usize,
}

/// The group with its active index set to `index` (when the group exists) and
/// the workspace marked dirty.
pub open spec fn group_set_active(g: ButtonGroupView, index: usize) -> ButtonGroupView {
    ButtonGroupView {
        active: match g.active {
            Some(_) => Some(index),
            None => None,
        },
        dirty: true,
    }
}

impl ButtonGroupChangeCommand {
    /// A change of the group `group_id` from `old_index` to `new_index`.
    pub fn new(group_id: String, old_index: usize, new_index: usize) -> (c: Self)
        ensures
            c.group_id == group_id,
            c.old_index == old_index,
            c.new_index == new_index,
    {
        ButtonGroupChangeCommand { group_id, old_index, new_index }
    }

    /// Applies the change. A new command changes nothing, because the UI has
    /// already switched the group; a redo selects the new index again.
    pub fn execute(&mut self, group: &mut ButtonGroupView, is_new: bool)
        ensures
            *final(self) == *old(self),
            *final(group) == if is_new { *old(group) } else { group_set_active(*old(group), old(self).new_index) },
    {
        if !is_new {
            if group.active.is_some() {
                group.active = Some(self.new_index);
            }
            group.dirty = true;
        }
    }

    /// Reverts the change: the group selects the old index again.
    pub fn undo(&mut self, group: &mut ButtonGroupView)
        ensures
            *final(self) == *old(self),
            *final(group) == group_set_active(*old(group), old(self).old_index),
    {
        if group.active.is_some() {
            group.active = Some(self.old_index);
        }
        group.dirty = true;
    }

    /// The history label of the command.
    pub fn description(&self) -> (d: &'static str)
        ensures
            d@ == "Change Button Group"@,
    {
        "Change Button Group"
    }
}

/// Undoing a button-group change restores the index the group had before the
/// change, and redoing it afterwards selects the new index again.
pub proof fn lemma_button_group_undo_redo(c: ButtonGroupChangeCommand, g: ButtonGroupView)
    requires
        g.active == Some(c.old_index),
    ensures
        group_set_active(group_set_active(g, c.new_index), c.old_index).active == g.active,
        group_set_active(group_set_active(group_set_active(g, c.new_index), c.old_index), c.new_index)
            == group_set_active(g, c.new_index),
{
}

// ---------------------------------------------------------------------------
// History labels
// ---------------------------------------------------------------------------

/// `prefix` followed by the command description, when there is one.
pub open spec fn history_label(prefix: Seq<char>, desc: Option<Seq<char>>) -> Option<Seq<char>> {
    match desc {
        Some(d) => Some(prefix + d),
        None => None,
    }
}

/// The view of an optional text.
pub open spec fn opt_text(desc: Option<&str>) -> Option<Seq<char>> {
    match desc {
        Some(d) => Some(d@),
        None => None,
    }
}

/// The view of an optional owned text.
pub open spec fn opt_string(s: Option<String>) -> Option<Seq<char>> {
    match s {
        Some(t) => Some(t@),
        None => None,
    }
}

/// The label of the undo entry: `Undo ` and the description of the command that
/// would be undone, if any.
pub fn undo_description(desc: Option<&str>) -> (label: Option<String>)
    ensures
        opt_string(label) == history_label("Undo "@, opt_text(desc)),
{
    match desc {
        Some(d) => {
            let mut s = String::from_str("Undo ");
            s.append(d);
            Some(s)
        },
        None => None,
    }
}

/// The label of the redo entry: `Redo ` and the description of the command that
/// would be redone, if any.
pub fn redo_description(desc: Option<&str>) -> (label: Option<String>)
    ensures
        opt_string(label) == history_label("Redo "@, opt_text(desc)),
{
    match desc {
        Some(d) => {
            let mut s = String::from_str("Redo ");
            s.append(d);
            Some(s)
        },
        None => None,
    }
}

} // verus!
