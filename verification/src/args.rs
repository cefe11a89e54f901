//! The argument accumulator shared by every command assembler: what a
//! fragment of a command line is, how fragments are appended, and what
//! holds of lists put together from fragments.

use vstd::prelude::*;

verus! {

/// Text of the pair `left:right`, the shape of every aliased or sourced
/// argument.
pub open spec fn colon_pair(left: Seq<char>, right: Seq<char>) -> Seq<char> {
    left + seq![':'] + right
}

/// One flag when `on`, nothing otherwise.
pub open spec fn flag_if(on: bool, flag: Seq<char>) -> Seq<Seq<char>> {
    if on {
        seq![flag]
    } else {
        seq![]
    }
}

/// The view of an optional text.
pub open spec fn optional_text(value: Option<&str>) -> Option<Seq<char>> {
    match value {
        Some(text) => Some(text@),
        None => None,
    }
}

/// A flag and its value when there is a value, nothing otherwise.
pub open spec fn pair_if_some(flag: Seq<char>, value: Option<Seq<char>>) -> Seq<Seq<char>> {
    match value {
        Some(value) => seq![flag, value],
        None => seq![],
    }
}

/// Every value in order, each preceded by `flag`.
pub open spec fn flagged_each(flag: Seq<char>, values: Seq<Seq<char>>) -> Seq<Seq<char>>
    decreases values.len(),
{
    if values.len() == 0 {
        seq![]
    } else {
        flagged_each(flag, values.drop_last()) + seq![flag, values.last()]
    }
}

/// `run` stands in `args` from index `at` on, whole and in order.
pub open spec fn has_run_at(args: Seq<Seq<char>>, at: int, run: Seq<Seq<char>>) -> bool {
    &&& 0 <= at
    &&& at + run.len() <= args.len()
    &&& forall|i: int| 0 <= i < run.len() ==> #[trigger] args[at + i] == run[i]
}

/// `run` stands somewhere in `args`, whole and in order.
pub open spec fn contains_run(args: Seq<Seq<char>>, run: Seq<Seq<char>>) -> bool {
    exists|at: int| has_run_at(args, at, run)
}

/// No argument of `args` is `text`.
pub open spec fn absent(args: Seq<Seq<char>>, text: Seq<char>) -> bool {
    forall|i: int| 0 <= i < args.len() ==> #[trigger] args[i] != text
}

/// The argument at `at` is `text`, and no other argument is.
pub open spec fn only_at(args: Seq<Seq<char>>, text: Seq<char>, at: int) -> bool {
    &&& 0 <= at < args.len()
    &&& forall|i: int| 0 <= i < args.len() ==> (#[trigger] args[i] == text <==> i == at)
}

/// No character of `text` is a colon.
pub open spec fn has_no_colon(text: Seq<char>) -> bool {
    forall|i: int| 0 <= i < text.len() ==> #[trigger] text[i] != ':'
}

/// Appends one argument to the list.
pub fn push_arg(args: &mut Vec<String>, arg: &str)
    ensures
        final(args).deep_view() == old(args).deep_view().push(arg@),
{
    push_owned(args, String::from_str(arg));
}

/// Appends one argument that the caller has already built.
pub fn push_owned(args: &mut Vec<String>, arg: String)
    ensures
        final(args).deep_view() == old(args).deep_view().push(arg@),
{
    args.push(arg);
    assert(args.deep_view() =~= old(args).deep_view().push(arg@));
}

/// Appends a flag followed by its value.
pub fn push_pair(args: &mut Vec<String>, flag: &str, value: &str)
    ensures
        final(args).deep_view() == old(args).deep_view() + seq![flag@, value@],
{
    push_arg(args, flag);
    push_arg(args, value);
    assert(args.deep_view() =~= old(args).deep_view() + seq![flag@, value@]);
}

/// Appends a flag followed by a value that the caller has already built.
pub fn push_pair_owned(args: &mut Vec<String>, flag: &str, value: String)
    ensures
        final(args).deep_view() == old(args).deep_view() + seq![flag@, value@],
{
    push_arg(args, flag);
    push_owned(args, value);
    assert(args.deep_view() =~= old(args).deep_view() + seq![flag@, value@]);
}

/// Appends a flag and its value when there is a value.
pub fn push_optional_pair(args: &mut Vec<String>, flag: &str, value: Option<&str>)
    ensures
        final(args).deep_view() == old(args).deep_view() + pair_if_some(
            flag@,
            optional_text(value),
        ),
{
    match value {
        Some(value) => push_pair(args, flag, value),
        None => {
            assert(args.deep_view() =~= old(args).deep_view() + Seq::<Seq<char>>::empty());
        },
    }
}

/// Appends a flag when `on`.
pub fn push_flag_if(args: &mut Vec<String>, on: bool, flag: &str)
    ensures
        final(args).deep_view() == old(args).deep_view() + flag_if(on, flag@),
{
    if on {
        push_arg(args, flag);
    }
    assert(args.deep_view() =~= old(args).deep_view() + flag_if(on, flag@));
}

/// Appends every value, in order, as a bare argument.
pub fn push_all(args: &mut Vec<String>, values: &[String])
    ensures
        final(args).deep_view() == old(args).deep_view() + values.deep_view(),
{
    let mut i: usize = 0;
    while i < values.len()
        invariant
            i <= values.len(),
            args.deep_view() == old(args).deep_view() + values.deep_view().take(i as int),
        decreases values.len() - i,
    {
        push_arg(args, values[i].as_str());
        assert(args.deep_view() =~= old(args).deep_view() + values.deep_view().take(i + 1));
        i += 1;
    }
    assert(values.deep_view().take(i as int) =~= values.deep_view());
}

/// Appends every value, in order, each preceded by `flag`.
pub fn push_each_flagged(args: &mut Vec<String>, flag: &str, values: &[String])
    ensures
        final(args).deep_view() == old(args).deep_view() + flagged_each(
            flag@,
            values.deep_view(),
        ),
{
    let mut i: usize = 0;
    while i < values.len()
        invariant
            i <= values.len(),
            args.deep_view() == old(args).deep_view() + flagged_each(
                flag@,
                values.deep_view().take(i as int),
            ),
        decreases values.len() - i,
    {
        push_pair(args, flag, values[i].as_str());
        proof {
            let next = values.deep_view().take(i + 1);
            assert(next.drop_last() =~= values.deep_view().take(i as int));
            assert(next.last() == values[i as int]@);
            assert(args.deep_view() =~= old(args).deep_view() + flagged_each(flag@, next));
        }
        i += 1;
    }
    assert(values.deep_view().take(i as int) =~= values.deep_view());
}

/// Builds the text `left:right`.
pub fn join_colon(left: &str, right: &str) -> (joined: String)
    ensures
        joined@ == colon_pair(left@, right@),
{
    let mut joined = String::from_str(left);
    joined.append(":");
    joined.append(right);
    proof {
        reveal_strlit(":");
        assert(":"@ =~= seq![':']);
    }
    joined
}

/// The empty list of texts.
pub fn no_texts() -> (texts: Vec<String>)
    ensures
        texts.deep_view() == Seq::<Seq<char>>::empty(),
{
    let texts: Vec<String> = Vec::new();
    assert(texts.deep_view() =~= Seq::<Seq<char>>::empty());
    texts
}

/// An owned copy of a list of texts.
pub fn copy_texts(values: &[String]) -> (copy: Vec<String>)
    ensures
        copy.deep_view() == values.deep_view(),
{
    let mut copy: Vec<String> = Vec::new();
    push_all(&mut copy, values);
    assert(copy.deep_view() =~= values.deep_view());
    copy
}

/// Appending fragment after fragment builds the concatenation of the
/// fragments: concatenation is associative.
pub broadcast proof fn lemma_fragments_associate(
    head: Seq<Seq<char>>,
    middle: Seq<Seq<char>>,
    tail: Seq<Seq<char>>,
)
    ensures
        #[trigger] ((head + middle) + tail) == head + (middle + tail),
{
    assert((head + middle) + tail =~= head + (middle + tail));
}

/// `flagged_each` holds two arguments per value: the flag at the even
/// places, the values at the odd ones.
pub proof fn lemma_flagged_each_layout(flag: Seq<char>, values: Seq<Seq<char>>)
    ensures
        flagged_each(flag, values).len() == 2 * values.len(),
        forall|i: int|
            0 <= i < values.len() ==> #[trigger] flagged_each(flag, values)[2 * i] == flag,
        forall|i: int|
            0 <= i < values.len() ==> #[trigger] flagged_each(flag, values)[2 * i + 1] == values[i],
    decreases values.len(),
{
    if values.len() > 0 {
        lemma_flagged_each_layout(flag, values.drop_last());
    }
}

/// A run of the front part is a run of the whole, at the same place.
pub proof fn lemma_run_in_front(
    front: Seq<Seq<char>>,
    back: Seq<Seq<char>>,
    at: int,
    run: Seq<Seq<char>>,
)
    requires
        has_run_at(front, at, run),
    ensures
        has_run_at(front + back, at, run),
{
    assert forall|i: int| 0 <= i < run.len() implies #[trigger] (front + back)[at + i]
        == run[i] by {
        assert(front[at + i] == run[i]);
    }
}

/// A run of the back part is a run of the whole, moved by the length of the
/// front part.
pub proof fn lemma_run_in_back(
    front: Seq<Seq<char>>,
    back: Seq<Seq<char>>,
    at: int,
    run: Seq<Seq<char>>,
)
    requires
        has_run_at(back, at, run),
    ensures
        has_run_at(front + back, front.len() + at, run),
{
    assert forall|i: int| 0 <= i < run.len() implies #[trigger] (front + back)[front.len() + at
        + i] == run[i] by {
        assert(back[at + i] == run[i]);
    }
}

/// What is absent from two lists is absent from the two put together.
pub proof fn lemma_absent_concat(front: Seq<Seq<char>>, back: Seq<Seq<char>>, text: Seq<char>)
    requires
        absent(front, text),
        absent(back, text),
    ensures
        absent(front + back, text),
{
    assert forall|i: int| 0 <= i < (front + back).len() implies #[trigger] (front + back)[i]
        != text by {
        if i < front.len() {
            assert(front[i] != text);
        } else {
            assert(back[i - front.len()] != text);
        }
    }
}

/// What stands once in the front part and not in the back part stands once
/// in the whole, at the same place.
pub proof fn lemma_only_at_front(
    front: Seq<Seq<char>>,
    back: Seq<Seq<char>>,
    text: Seq<char>,
    at: int,
)
    requires
        only_at(front, text, at),
        absent(back, text),
    ensures
        only_at(front + back, text, at),
{
    assert forall|i: int| 0 <= i < (front + back).len() implies (#[trigger] (front + back)[i]
        == text <==> i == at) by {
        if i < front.len() {
            assert(front[i] == text <==> i == at);
        } else {
            assert(back[i - front.len()] != text);
        }
    }
}

/// What stands once in the back part and not in the front part stands once
/// in the whole, moved by the length of the front part.
pub proof fn lemma_only_at_back(
    front: Seq<Seq<char>>,
    back: Seq<Seq<char>>,
    text: Seq<char>,
    at: int,
)
    requires
        absent(front, text),
        only_at(back, text, at),
    ensures
        only_at(front + back, text, front.len() + at),
{
    assert forall|i: int| 0 <= i < (front + back).len() implies (#[trigger] (front + back)[i]
        == text <==> i == front.len() + at) by {
        if i < front.len() {
            assert(front[i] != text);
        } else {
            assert(back[i - front.len()] == text <==> i - front.len() == at);
        }
    }
}

/// An optional flag holds nothing but the flag.
pub proof fn lemma_absent_flag_if(on: bool, flag: Seq<char>, text: Seq<char>)
    requires
        flag != text,
    ensures
        absent(flag_if(on, flag), text),
{
}

/// A flag and its optional value hold nothing but the two.
pub proof fn lemma_absent_pair_if_some(
    flag: Seq<char>,
    value: Option<Seq<char>>,
    text: Seq<char>,
)
    requires
        flag != text,
        value matches Some(value) ==> value != text,
    ensures
        absent(pair_if_some(flag, value), text),
{
}

/// Flagged values hold nothing but the flag and the values.
pub proof fn lemma_absent_flagged_each(
    flag: Seq<char>,
    values: Seq<Seq<char>>,
    text: Seq<char>,
)
    requires
        flag != text,
        absent(values, text),
    ensures
        absent(flagged_each(flag, values), text),
    decreases values.len(),
{
    if values.len() > 0 {
        let front = values.drop_last();
        assert forall|i: int| 0 <= i < front.len() implies #[trigger] front[i] != text by {
            assert(values[i] != text);
        }
        lemma_absent_flagged_each(flag, front, text);
        assert(values[values.len() - 1] != text);
        lemma_absent_concat(
            flagged_each(flag, values.drop_last()),
            seq![flag, values.last()],
            text,
        );
    }
}

/// A pair `left:right` is no text without a colon.
pub proof fn lemma_colon_pair_has_a_colon(left: Seq<char>, right: Seq<char>, text: Seq<char>)
    requires
        has_no_colon(text),
    ensures
        colon_pair(left, right) != text,
{
    let pair = colon_pair(left, right);
    assert(pair[left.len() as int] == ':');
    if pair == text {
        assert(text[left.len() as int] == ':');
    }
}

} // verus!
