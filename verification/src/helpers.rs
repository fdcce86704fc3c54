use vstd::prelude::*;
use rand::seq::SliceRandom;
use crate::text::{chars_of, contains_str, has_substring};

verus! {

/// The domains whose links the bot accepts, in the order they are tried.
pub open spec fn supported_domains() -> Seq<Seq<char>> {
    seq![
        "youtu.be"@,
        "facebook.com"@,
        "x.com"@,
        "twitter.com"@,
        "tiktok.com"@,
        "instagram.com"@,
        "youtube.com"@,
        "reddit.com"@,
        "linkedin.com"@,
    ]
}

/// The supported domains as executable strings.
pub fn supported_domain_list() -> (v: Vec<&'static str>)
    ensures
        v@.len() == supported_domains().len(),
        forall|i: int| 0 <= i < v@.len() ==> #[trigger] v@[i]@ == supported_domains()[i],
{
    vec![
        "youtu.be",
        "facebook.com",
        "x.com",
        "twitter.com",
        "tiktok.com",
        "instagram.com",
        "youtube.com",
        "reddit.com",
        "linkedin.com",
    ]
}

/// `text` holds one of the supported domains somewhere in it.
pub open spec fn spec_is_supported_url(text: Seq<char>) -> bool {
    exists|i: int| 0 <= i < supported_domains().len() && has_substring(text, #[trigger] supported_domains()[i])
}

/// Whether `text` mentions one of the supported domains (anywhere, as a substring).
pub fn is_supported_url(text: &str) -> (r: bool)
    ensures
        r == spec_is_supported_url(text@),
{
    let domains = supported_domain_list();
    let mut i: usize = 0;
    while i < domains.len()
        invariant
            domains@.len() == supported_domains().len(),
            forall|k: int| 0 <= k < domains@.len() ==> #[trigger] domains@[k]@ == supported_domains()[k],
            i <= domains@.len(),
            forall|k: int| 0 <= k < i ==> !has_substring(text@, #[trigger] supported_domains()[k]),
        decreases domains@.len() - i,
    {
        if contains_str(text, domains[i]) {
            assert(has_substring(text@, supported_domains()[i as int]));
            return true;
        }
        i = i + 1;
    }
    false
}

/// A text is a supported link exactly when it mentions one of the nine
/// domains of the README's sites: youtu.be, facebook.com, x.com, twitter.com,
/// tiktok.com, instagram.com, youtube.com, reddit.com or linkedin.com.
pub proof fn law_supported_domains(t: Seq<char>)
    ensures
        has_substring(t, "youtu.be"@) ==> spec_is_supported_url(t),
        has_substring(t, "facebook.com"@) ==> spec_is_supported_url(t),
        has_substring(t, "x.com"@) ==> spec_is_supported_url(t),
        has_substring(t, "twitter.com"@) ==> spec_is_supported_url(t),
        has_substring(t, "tiktok.com"@) ==> spec_is_supported_url(t),
        has_substring(t, "instagram.com"@) ==> spec_is_supported_url(t),
        has_substring(t, "youtube.com"@) ==> spec_is_supported_url(t),
        has_substring(t, "reddit.com"@) ==> spec_is_supported_url(t),
        has_substring(t, "linkedin.com"@) ==> spec_is_supported_url(t),
        spec_is_supported_url(t) ==> {
            ||| has_substring(t, "youtu.be"@)
            ||| has_substring(t, "facebook.com"@)
            ||| has_substring(t, "x.com"@)
            ||| has_substring(t, "twitter.com"@)
            ||| has_substring(t, "tiktok.com"@)
            ||| has_substring(t, "instagram.com"@)
            ||| has_substring(t, "youtube.com"@)
            ||| has_substring(t, "reddit.com"@)
            ||| has_substring(t, "linkedin.com"@)
        },
{
    let d = supported_domains();
    assert(d[0] == "youtu.be"@);
    assert(d[1] == "facebook.com"@);
    assert(d[2] == "x.com"@);
    assert(d[3] == "twitter.com"@);
    assert(d[4] == "tiktok.com"@);
    assert(d[5] == "instagram.com"@);
    assert(d[6] == "youtube.com"@);
    assert(d[7] == "reddit.com"@);
    assert(d[8] == "linkedin.com"@);
}

/// What `char::to_uppercase` yields for `c`; a character may map to several.
pub uninterp spec fn uppercase_of(c: char) -> Seq<char>;

/// Calls `char::to_uppercase` and collects what it yields into a `String`.
/// The result is named `uppercase_of(c)`: it depends on `c` alone (Unicode's
/// case tables); nothing more is stated of it.
#[verifier::external_body]
fn char_to_uppercase(c: char) -> (r: String)
    ensures
        r@ == uppercase_of(c),
{
    c.to_uppercase().collect::<String>()
}

/// `s` with its first character replaced by its uppercase form.
pub open spec fn spec_capitalize_first(s: Seq<char>) -> Seq<char> {
    if s.len() == 0 {
        Seq::empty()
    } else {
        uppercase_of(s[0]) + s.skip(1)
    }
}

/// Upper-cases the first character of `s` and keeps the rest as it is.
pub fn capitalize_first(s: &str) -> (r: String)
    ensures
        r@ == spec_capitalize_first(s@),
{
    let chars = chars_of(s);
    if chars.len() == 0 {
        return String::new();
    }
    let len = chars.len();
    let mut out = char_to_uppercase(chars[0]);
    let rest = s.substring_char(1, len);
    out.append(rest);
    out
}

} // verus!

verus! {

/// The ways the bot addresses its users.
pub open spec fn greetings() -> Seq<Seq<char>> {
    seq![
        "краљу"@, "баки"@, "царе"@, "легендице"@, "друже"@, "чоче"@, "јадо"@,
        "мајсторе"@, "легендо"@, "брате"@, "геније"@, "душо"@, "сине"@, "мангупе"@,
        "фрајеру"@, "братко"@, "батко"@, "срце"@, "пријатељу"@, "комшо"@, "комшија"@,
    ]
}

/// `g` is one of the bot's greetings.
pub open spec fn is_greeting(g: Seq<char>) -> bool {
    exists|i: int| 0 <= i < greetings().len() && greetings()[i] == g
}

/// The greetings as executable strings.
fn greeting_list() -> (v: Vec<&'static str>)
    ensures
        v@.len() == greetings().len(),
        forall|i: int| 0 <= i < v@.len() ==> #[trigger] v@[i]@ == greetings()[i],
{
    vec![
        "краљу", "баки", "царе", "легендице", "друже", "чоче", "јадо",
        "мајсторе", "легендо", "брате", "геније", "душо", "сине", "мангупе",
        "фрајеру", "братко", "батко", "срце", "пријатељу", "комшо", "комшија",
    ]
}

/// Calls `SliceRandom::choose` with the thread-local generator: `None` for
/// an empty slice, otherwise one of its elements, picked at random (which one
/// is chance, and is not stated).
#[verifier::external_body]
fn choose_one(items: &[&'static str]) -> (r: Option<&'static str>)
    ensures
        r is None <==> items@.len() == 0,
        r matches Some(x) ==> exists|i: int| 0 <= i < items@.len() && items@[i] == x,
{
    items.choose(&mut rand::thread_rng()).copied()
}

/// One of the bot's greetings, picked at random.
pub fn random_greeting() -> (g: &'static str)
    ensures
        is_greeting(g@),
{
    let list = greeting_list();
    match choose_one(list.as_slice()) {
        Some(g) => {
            let ghost i = choose|i: int| 0 <= i < list@.len() && list@[i] == g;
            assert(greetings()[i] == g@);
            g
        },
        None => {
            assert(greetings()[4] == "друже"@);
            "друже"
        },
    }
}

} // verus!
