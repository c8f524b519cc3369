//! Boot options and the composer that turns selections into positional
//! command-line fragments.

use vstd::prelude::*;
use vstd::string::*;
use crate::error::B2Error;

verus! {

/// User-selectable boot option.
///
/// No dependency check here.
#[derive(Clone, Debug)]
pub struct BootOption {
    /// Short option identifier.
    ///
    /// This is used for searching and i18n.
    pub identifier: String,
    /// The command-line slot to append to.
    ///
    /// Useful with multiboot where every module has its own command line.
    pub pos: i32,
    /// Human readable name.
    pub name: String,
    /// Detailed description if available.
    pub description: Option<String>,
    pub option: BootOptionKind,
}

#[derive(Clone, Debug)]
pub enum BootOptionKind {
    /// Yes/No option: the fragment is appended when selected.
    Bool(String),
    /// Multiple choice: one named fragment is appended.
    Multiple(Vec<BootOptionItem>),
    /// A literal prefix to which the user's value is appended, e.g. `root=`.
    Template(String),
}

#[derive(Clone, Debug)]
pub struct BootOptionItem {
    pub identifier: String,
    pub name: String,
    pub description: Option<String>,
    pub value: String,
}

#[derive(Clone, Debug)]
pub enum BootOptionSelection {
    Bool(bool),
    Multiple(i32),
    Template(Option<String>),
    Default,
}

/// Whether a selection carries the variant that its option's kind asks for.
pub open spec fn kinds_match(o: BootOption, s: BootOptionSelection) -> bool {
    match (o.option, s) {
        (BootOptionKind::Bool(_), BootOptionSelection::Bool(_)) => true,
        (BootOptionKind::Multiple(_), BootOptionSelection::Multiple(_)) => true,
        (BootOptionKind::Template(_), BootOptionSelection::Template(_)) => true,
        _ => false,
    }
}

/// Whether a multiple-choice selection names an item of its option.
pub open spec fn choice_in_range(o: BootOption, s: BootOptionSelection) -> bool {
    match (o.option, s) {
        (BootOptionKind::Multiple(items), BootOptionSelection::Multiple(k)) => 0 <= k < items@.len(),
        _ => true,
    }
}

/// The error that one (option, selection) pair gives, if any.
pub open spec fn pair_error(o: BootOption, s: BootOptionSelection) -> Option<B2Error> {
    if !kinds_match(o, s) {
        Some(B2Error::KindMismatch)
    } else if !choice_in_range(o, s) {
        Some(B2Error::OutOfRange)
    } else {
        None
    }
}

/// The text that one well-matched pair appends to its slot.
pub open spec fn fragment(o: BootOption, s: BootOptionSelection) -> Seq<char> {
    match (o.option, s) {
        (BootOptionKind::Bool(text), BootOptionSelection::Bool(selected)) => {
            if selected {
                text@.push(' ')
            } else {
                Seq::empty()
            }
        },
        (BootOptionKind::Multiple(items), BootOptionSelection::Multiple(k)) => {
            items@[k as int].value@.push(' ')
        },
        (BootOptionKind::Template(template), BootOptionSelection::Template(value)) => {
            match value {
                Some(v) => (template@ + v@).push(' '),
                None => Seq::empty(),
            }
        },
        _ => Seq::empty(),
    }
}

/// The first error among the first `n` pairs.
pub open spec fn first_error(
    options: Seq<BootOption>,
    selections: Seq<BootOptionSelection>,
    n: nat,
) -> Option<B2Error>
    decreases n,
{
    if n == 0 {
        None
    } else {
        match first_error(options, selections, (n - 1) as nat) {
            Some(e) => Some(e),
            None => pair_error(options[n - 1], selections[n - 1]),
        }
    }
}

/// The largest slot index among the first `n` options, or -1 when `n` is 0.
pub open spec fn max_pos(options: Seq<BootOption>, n: nat) -> int
    decreases n,
{
    if n == 0 {
        -1
    } else {
        let m = max_pos(options, (n - 1) as nat);
        if options[n - 1].pos > m {
            options[n - 1].pos as int
        } else {
            m
        }
    }
}

/// Number of command-line slots: one more than the largest `pos`.
pub open spec fn slot_count(options: Seq<BootOption>) -> nat {
    (max_pos(options, options.len()) + 1) as nat
}

/// The slots after the first `n` pairs have been applied.
pub open spec fn slots_after(
    options: Seq<BootOption>,
    selections: Seq<BootOptionSelection>,
    n: nat,
) -> Seq<Seq<char>>
    decreases n,
{
    if n == 0 {
        Seq::new(slot_count(options), |i: int| Seq::<char>::empty())
    } else {
        let prev = slots_after(options, selections, (n - 1) as nat);
        let p = options[n - 1].pos as int;
        prev.update(p, prev[p] + fragment(options[n - 1], selections[n - 1]))
    }
}

/// What composing gives: the slots, or the error of the first bad pair.
pub open spec fn composed(options: Seq<BootOption>, selections: Seq<BootOptionSelection>) -> Result<
    Seq<Seq<char>>,
    B2Error,
> {
    if options.len() != selections.len() {
        Err(B2Error::LengthMismatch)
    } else {
        match first_error(options, selections, options.len()) {
            Some(e) => Err(e),
            None => Ok(slots_after(options, selections, options.len())),
        }
    }
}

pub open spec fn string_views(v: Seq<String>) -> Seq<Seq<char>> {
    v.map_values(|s: String| s@)
}

proof fn lemma_max_pos_bounds(options: Seq<BootOption>, n: nat)
    requires
        n <= options.len(),
        forall|i: int| 0 <= i < options.len() ==> options[i].pos >= 0,
    ensures
        -1 <= max_pos(options, n) <= i32::MAX,
        n > 0 ==> max_pos(options, n) >= 0,
        forall|i: int| 0 <= i < n ==> options[i].pos <= max_pos(options, n),
    decreases n,
{
    if n > 0 {
        lemma_max_pos_bounds(options, (n - 1) as nat);
    }
}

proof fn lemma_slots_len(options: Seq<BootOption>, selections: Seq<BootOptionSelection>, n: nat)
    requires
        n <= options.len(),
        forall|i: int| 0 <= i < n ==> 0 <= #[trigger] options[i].pos < slot_count(options),
    ensures
        slots_after(options, selections, n).len() == slot_count(options),
    decreases n,
{
    if n > 0 {
        lemma_slots_len(options, selections, (n - 1) as nat);
    }
}

proof fn lemma_first_error_stays(
    options: Seq<BootOption>,
    selections: Seq<BootOptionSelection>,
    i: nat,
    n: nat,
)
    requires
        i <= n,
        first_error(options, selections, i) is Some,
    ensures
        first_error(options, selections, n) == first_error(options, selections, i),
    decreases n,
{
    if n > i {
        lemma_first_error_stays(options, selections, i, (n - 1) as nat);
    }
}

proof fn lemma_first_error_exists(
    options: Seq<BootOption>,
    selections: Seq<BootOptionSelection>,
    n: nat,
)
    ensures
        first_error(options, selections, n) is Some <==> exists|i: int|
            0 <= i < n && (#[trigger] pair_error(options[i], selections[i])) is Some,
    decreases n,
{
    if n > 0 {
        lemma_first_error_exists(options, selections, (n - 1) as nat);
        if first_error(options, selections, n) is None {
            assert forall|i: int| 0 <= i < n implies (#[trigger] pair_error(
                options[i],
                selections[i],
            )) is None by {
                if i < n - 1 {
                    assert(first_error(options, selections, (n - 1) as nat) is None);
                }
            }
        }
    }
}

/// Composing `k + 1` options whose slots are `p_0..p_k` gives exactly
/// `1 + max(p_i)` slots, whenever it succeeds.
pub proof fn lemma_slot_count(options: Seq<BootOption>, selections: Seq<BootOptionSelection>)
    requires
        options.len() > 0,
        forall|i: int| 0 <= i < options.len() ==> options[i].pos >= 0,
        composed(options, selections) is Ok,
    ensures
        composed(options, selections)->Ok_0.len() == 1 + max_pos(options, options.len()),
        forall|i: int| 0 <= i < options.len() ==> options[i].pos <= max_pos(options, options.len()),
        exists|i: int| 0 <= i < options.len() && options[i].pos == max_pos(options, options.len()),
{
    lemma_max_pos_bounds(options, options.len());
    lemma_max_pos_attained(options, options.len());
    lemma_slots_len_any(options, selections, options.len());
}

/// Composing fails exactly when the numbers of options and selections
/// differ, or some selection's variant does not match its option's kind, or
/// some multiple-choice index lies outside its option's items.
pub proof fn lemma_compose_fails_iff(options: Seq<BootOption>, selections: Seq<BootOptionSelection>)
    ensures
        composed(options, selections) is Err <==> {
            ||| options.len() != selections.len()
            ||| exists|i: int|
                0 <= i < options.len() && !(#[trigger] kinds_match(options[i], selections[i]))
            ||| exists|i: int|
                0 <= i < options.len() && !(#[trigger] choice_in_range(options[i], selections[i]))
        },
{
    lemma_first_error_exists(options, selections, options.len());
    if options.len() == selections.len() {
        if exists|i: int|
            0 <= i < options.len() && !(#[trigger] kinds_match(options[i], selections[i])) {
            let i = choose|i: int|
                0 <= i < options.len() && !(#[trigger] kinds_match(options[i], selections[i]));
            assert(pair_error(options[i], selections[i]) is Some);
        }
        if exists|i: int|
            0 <= i < options.len() && !(#[trigger] choice_in_range(options[i], selections[i])) {
            let i = choose|i: int|
                0 <= i < options.len() && !(#[trigger] choice_in_range(options[i], selections[i]));
            assert(pair_error(options[i], selections[i]) is Some);
        }
        if first_error(options, selections, options.len()) is Some {
            let i = choose|i: int|
                0 <= i < options.len() && (#[trigger] pair_error(options[i], selections[i])) is Some;
            assert(!kinds_match(options[i], selections[i]) || !choice_in_range(options[i], selections[i]));
        }
    }
}

proof fn lemma_max_pos_attained(options: Seq<BootOption>, n: nat)
    requires
        0 < n <= options.len(),
        forall|i: int| 0 <= i < options.len() ==> options[i].pos >= 0,
    ensures
        exists|i: int| 0 <= i < n && options[i].pos == max_pos(options, n),
    decreases n,
{
    if n > 1 {
        lemma_max_pos_attained(options, (n - 1) as nat);
        if options[n - 1].pos <= max_pos(options, (n - 1) as nat) {
            let i = choose|i: int| 0 <= i < n - 1 && options[i].pos == max_pos(options, (n - 1) as nat);
            assert(0 <= i < n && options[i].pos == max_pos(options, n));
        } else {
            assert(options[n - 1].pos == max_pos(options, n));
        }
    } else {
        assert(max_pos(options, 0) == -1);
        assert(options[0].pos >= 0);
        assert(options[0].pos == max_pos(options, 1));
    }
}

proof fn lemma_slots_len_any(options: Seq<BootOption>, selections: Seq<BootOptionSelection>, n: nat)
    requires
        n <= options.len(),
        forall|i: int| 0 <= i < options.len() ==> options[i].pos >= 0,
    ensures
        slots_after(options, selections, n).len() == slot_count(options),
{
    lemma_max_pos_bounds(options, options.len());
    lemma_slots_len(options, selections, n);
}

impl BootOption {
    /// Composes the command-line slots for `selections`, one per option.
    ///
    /// Slot `p` collects, in option order, the fragment of every option whose
    /// `pos` is `p`, each followed by a space.
    pub fn make_parameter(options: &[Self], selections: &[BootOptionSelection]) -> (r: Result<
        Vec<String>,
        B2Error,
    >)
        requires
            forall|i: int| 0 <= i < options@.len() ==> options@[i].pos >= 0,
        ensures
            match (r, composed(options@, selections@)) {
                (Ok(v), Ok(slots)) => string_views(v@) == slots,
                (Err(e), Err(f)) => e == f,
                _ => false,
            },
    {
        if options.len() != selections.len() {
            return Err(B2Error::LengthMismatch);
        }
        let n = options.len();
        let mut max: i32 = -1;
        let mut i: usize = 0;
        while i < n
            invariant
                i <= n,
                n == options@.len(),
                max as int == max_pos(options@, i as nat),
            decreases n - i,
        {
            if options[i].pos > max {
                max = options[i].pos;
            }
            i = i + 1;
        }
        proof {
            lemma_max_pos_bounds(options@, n as nat);
        }
        let count: usize = if max < 0 {
            0
        } else {
            max as usize + 1
        };
        let mut ret: Vec<String> = Vec::new();
        let mut k: usize = 0;
        while k < count
            invariant
                k <= count,
                ret@.len() == k,
                forall|j: int| 0 <= j < k ==> (#[trigger] ret@[j])@ == Seq::<char>::empty(),
            decreases count - k,
        {
            ret.push(String::new());
            k = k + 1;
        }
        proof {
            assert(string_views(ret@) =~= slots_after(options@, selections@, 0));
        }
        let mut i: usize = 0;
        while i < n
            invariant
                i <= n,
                n == options@.len(),
                n == selections@.len(),
                count == slot_count(options@),
                forall|j: int| 0 <= j < n ==> options@[j].pos >= 0,
                forall|j: int| 0 <= j < n ==> options@[j].pos < count,
                first_error(options@, selections@, i as nat) is None,
                string_views(ret@) == slots_after(options@, selections@, i as nat),
            decreases n - i,
        {
            let p = options[i].pos as usize;
            proof {
                lemma_slots_len(options@, selections@, i as nat);
                reveal_strlit(" ");
            }
            let ghost before = ret@;
            let ghost piece = fragment(options@[i as int], selections@[i as int]);
            match (&options[i].option, &selections[i]) {
                (BootOptionKind::Bool(text), BootOptionSelection::Bool(selected)) => {
                    if *selected {
                        ret[p].append(text.as_str());
                        ret[p].append(" ");
                    }
                    assert(ret@[p as int]@ =~= before[p as int]@ + piece);
                },
                (BootOptionKind::Multiple(items), BootOptionSelection::Multiple(which)) => {
                    if *which < 0 || *which as usize >= items.len() {
                        proof {
                            lemma_first_error_stays(options@, selections@, (i + 1) as nat, n as nat);
                        }
                        return Err(B2Error::OutOfRange);
                    }
                    ret[p].append(items[*which as usize].value.as_str());
                    ret[p].append(" ");
                    assert(ret@[p as int]@ =~= before[p as int]@ + piece);
                },
                (BootOptionKind::Template(template), BootOptionSelection::Template(value)) => {
                    match value {
                        Some(v) => {
                            ret[p].append(template.as_str());
                            ret[p].append(v.as_str());
                            ret[p].append(" ");
                        },
                        None => {},
                    }
                    assert(ret@[p as int]@ =~= before[p as int]@ + piece);
                },
                _ => {
                    proof {
                        lemma_first_error_stays(options@, selections@, (i + 1) as nat, n as nat);
                    }
                    return Err(B2Error::KindMismatch);
                },
            }
            proof {
                assert(ret@ =~= before.update(p as int, ret@[p as int]));
                assert(string_views(ret@) =~= slots_after(options@, selections@, (i + 1) as nat));
            }
            i = i + 1;
        }
        Ok(ret)
    }
}

} // verus!
