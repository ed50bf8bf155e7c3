//! Plausible random values for the columns that a person reads, drawn from
//! the `fake` crate.

use vstd::prelude::*;
use vstd::string::*;

verus! {

/// A word: it has a character and no space.
pub open spec fn is_word(w: Seq<char>) -> bool {
    w.len() > 0 && !w.contains(' ')
}

/// One lorem word: `fake::faker::lorem::en::Word`. It is taken from the
/// crate's list of the locale, which holds no empty word and none with a
/// space.
#[verifier::external_body]
pub(crate) fn fake_word() -> (r: String)
    ensures
        is_word(r@),
{
    fake::Fake::fake(&fake::faker::lorem::en::Word())
}

/// Lorem words: `fake::faker::lorem::en::Words`. Their number is drawn from
/// `min..max` and each is taken from the list that `Word` takes its word
/// from; the crate panics on an empty range.
#[verifier::external_body]
pub(crate) fn fake_words(min: usize, max: usize) -> (r: Vec<String>)
    requires
        min < max,
    ensures
        min <= r@.len() < max,
        forall|i: int| 0 <= i < r@.len() ==> is_word(#[trigger] r@[i]@),
{
    fake::Fake::fake(&fake::faker::lorem::en::Words(min..max))
}

/// The name of a company: `fake::faker::company::en::CompanyName`. It is one
/// of the crate's templates with family names filled in, so it is not empty.
#[verifier::external_body]
pub(crate) fn fake_company_name() -> (r: String)
    ensures
        r@.len() > 0,
{
    fake::Fake::fake(&fake::faker::company::en::CompanyName())
}

/// A login name: `fake::faker::internet::en::Username`. It holds a first
/// name in lower case, alone or beside a word or a number, so it is not
/// empty.
#[verifier::external_body]
pub(crate) fn fake_username() -> (r: String)
    ensures
        r@.len() > 0,
{
    fake::Fake::fake(&fake::faker::internet::en::Username())
}

/// An address under a reserved domain: `fake::faker::internet::en::SafeEmail`.
/// It is a first name, an at sign and the domain, so it is not empty.
#[verifier::external_body]
pub(crate) fn fake_safe_email() -> (r: String)
    ensures
        r@.len() > 0,
{
    fake::Fake::fake(&fake::faker::internet::en::SafeEmail())
}

/// A password: `fake::faker::internet::en::Password`. Its length in
/// characters is drawn from `min..max`; the crate panics on an empty range.
#[verifier::external_body]
pub(crate) fn fake_password(min: usize, max: usize) -> (r: String)
    requires
        min < max,
    ensures
        min <= r@.len() < max,
{
    fake::Fake::fake(&fake::faker::internet::en::Password(min..max))
}

/// A coin that shows `true` in `percent` of a hundred throws:
/// `fake::faker::boolean::en::Boolean`. Nothing is claimed of one throw.
#[verifier::external_body]
pub(crate) fn fake_boolean(percent: u8) -> bool {
    fake::Fake::fake(&fake::faker::boolean::en::Boolean(percent))
}

/// The words with one space between each two of them.
pub open spec fn joined(words: Seq<Seq<char>>) -> Seq<char>
    decreases words.len(),
{
    if words.len() == 0 {
        Seq::empty()
    } else if words.len() == 1 {
        words[0]
    } else {
        joined(words.drop_last()) + seq![' '] + words.last()
    }
}

/// `text` is made of at least `min` and fewer than `max` words, joined by
/// single spaces.
pub open spec fn is_phrase(text: Seq<char>, min: int, max: int) -> bool {
    exists|drawn: Seq<Seq<char>>|
        {
            &&& min <= drawn.len() < max
            &&& forall|i: int| 0 <= i < drawn.len() ==> is_word(#[trigger] drawn[i])
            &&& text == joined(drawn)
        }
}

/// Joins the words with single spaces.
pub fn join_words(words: &Vec<String>) -> (r: String)
    ensures
        r@ == joined(words.deep_view()),
{
    let ghost texts = words.deep_view();
    let mut r = String::new();
    let mut i: usize = 0;
    while i < words.len()
        invariant
            i <= words.len(),
            texts == words.deep_view(),
            r@ == joined(texts.take(i as int)),
        decreases words.len() - i,
    {
        if i > 0 {
            r.append(" ");
        }
        r.append(words[i].as_str());
        proof {
            reveal_strlit(" ");
            assert(texts.take(i + 1).drop_last() =~= texts.take(i as int));
        }
        i = i + 1;
    }
    proof {
        assert(texts.take(words.len() as int) =~= texts);
    }
    r
}

/// Some lorem words joined by spaces, at least `min` and fewer than `max` of
/// them.
pub fn words(min: usize, max: usize) -> (r: String)
    requires
        min < max,
    ensures
        is_phrase(r@, min as int, max as int),
{
    let drawn = fake_words(min, max);
    let r = join_words(&drawn);
    proof {
        let texts = drawn.deep_view();
        assert forall|i: int| 0 <= i < texts.len() implies is_word(#[trigger] texts[i]) by {
            assert(is_word(drawn@[i]@));
        }
        assert(r@ == joined(texts));
    }
    r
}

} // verus!
