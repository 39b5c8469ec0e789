//! Copies of owned text, with the copy known to equal the source.

use vstd::prelude::*;

verus! {

/// A copy of an optional string.
pub(crate) fn clone_text(text: &Option<String>) -> (copy: Option<String>)
    ensures
        copy == *text,
{
    match text {
        Some(s) => Some(s.clone()),
        None => None,
    }
}

/// A copy of a list of strings, in order.
pub(crate) fn clone_texts(texts: &Vec<String>) -> (copy: Vec<String>)
    ensures
        copy@ == texts@,
{
    let mut copy: Vec<String> = Vec::new();
    let mut i: usize = 0;
    while i < texts.len()
        invariant
            i <= texts.len(),
            copy@ == texts@.take(i as int),
        decreases texts.len() - i,
    {
        copy.push(texts[i].clone());
        i = i + 1;
    }
    copy
}

/// A copy of an optional list of strings.
pub(crate) fn clone_text_list(texts: &Option<Vec<String>>) -> (copy: Option<Vec<String>>)
    ensures
        copy.deep_view() == texts.deep_view(),
        copy is Some <==> *texts is Some,
        copy matches Some(c) ==> c@ == texts->0@,
{
    match texts {
        Some(list) => Some(clone_texts(list)),
        None => None,
    }
}

} // verus!
