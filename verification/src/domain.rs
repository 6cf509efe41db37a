//! The validated values that a subscription is made of.

use crate::routes::subscriptions::{is_valid_name, valid_name};
use vstd::prelude::*;
use vstd::std_specs::iter::IteratorSpec;

verus! {

/// The longest label of a domain name, in characters.
pub const MAX_LABEL_LENGTH: usize = 63;

/// An ASCII letter or digit.
pub open spec fn is_alphanumeric(c: char) -> bool {
    ||| ('a' <= c && c <= 'z')
    ||| ('A' <= c && c <= 'Z')
    ||| ('0' <= c && c <= '9')
}

/// The characters that the part of an address before the `@` is made of.
pub open spec fn is_local_char(c: char) -> bool {
    ||| is_alphanumeric(c)
    ||| c == '.'
    ||| c == '!'
    ||| c == '#'
    ||| c == '$'
    ||| c == '%'
    ||| c == '&'
    ||| c == '\''
    ||| c == '*'
    ||| c == '+'
    ||| c == '/'
    ||| c == '='
    ||| c == '?'
    ||| c == '^'
    ||| c == '_'
    ||| c == '`'
    ||| c == '{'
    ||| c == '|'
    ||| c == '}'
    ||| c == '~'
    ||| c == '-'
}

/// The characters that a domain name is made of.
pub open spec fn is_domain_char(c: char) -> bool {
    is_alphanumeric(c) || c == '-' || c == '.'
}

/// The part of an address before the `@`: one or more of the characters
/// allowed there.
pub open spec fn valid_local_part(l: Seq<char>) -> bool {
    &&& l.len() > 0
    &&& forall|i: int| 0 <= i < l.len() ==> is_local_char(#[trigger] l[i])
}

/// The length of the run of characters other than `.` that ends just before
/// position `i` of `d`: how far into a label position `i` is.
pub open spec fn label_run(d: Seq<char>, i: int) -> nat
    decreases i,
{
    if i <= 0 || i > d.len() {
        0
    } else if d[i - 1] == '.' {
        0
    } else {
        label_run(d, i - 1) + 1
    }
}

/// The part of an address after the `@`: labels separated by single dots,
/// each of 1 to 63 letters, digits and hyphens, with no hyphen first or last.
pub open spec fn valid_domain(d: Seq<char>) -> bool {
    &&& d.len() > 0
    &&& is_alphanumeric(d[0])
    &&& is_alphanumeric(d[d.len() - 1])
    &&& forall|i: int| 0 <= i < d.len() ==> is_domain_char(#[trigger] d[i])
    &&& forall|i: int|
        0 <= i < d.len() - 1 ==> (#[trigger] d[i] == '.' ==> is_alphanumeric(d[i + 1]))
    &&& forall|i: int| 0 <= i < d.len() - 1 ==> (#[trigger] d[i] == '-' ==> d[i + 1] != '.')
    &&& forall|i: int| 0 <= i <= d.len() ==> #[trigger] label_run(d, i) <= MAX_LABEL_LENGTH
}

/// Whether `s` splits at position `at` into a local part, an `@` and a
/// domain.
pub open spec fn splits_at(s: Seq<char>, at: int) -> bool {
    &&& 0 <= at < s.len()
    &&& s[at] == '@'
    &&& valid_local_part(s.take(at))
    &&& valid_domain(s.skip(at + 1))
}

/// The rule for email addresses: a local part, an `@` and a domain.
pub open spec fn valid_email(s: Seq<char>) -> bool {
    exists|at: int| splits_at(s, at)
}

fn is_alphanumeric_char(c: char) -> (r: bool)
    ensures
        r == is_alphanumeric(c),
{
    ('a' <= c && c <= 'z') || ('A' <= c && c <= 'Z') || ('0' <= c && c <= '9')
}

fn is_local(c: char) -> (r: bool)
    ensures
        r == is_local_char(c),
{
    is_alphanumeric_char(c) || c == '.' || c == '!' || c == '#' || c == '$' || c == '%' || c
        == '&' || c == '\'' || c == '*' || c == '+' || c == '/' || c == '=' || c == '?' || c
        == '^' || c == '_' || c == '`' || c == '{' || c == '|' || c == '}' || c == '~' || c
        == '-'
}

/// The characters of `s`, one by one.
pub fn chars_of(s: &str) -> (v: Vec<char>)
    ensures
        v@ == s@,
{
    let mut v: Vec<char> = Vec::new();
    let mut chars = s.chars();
    loop
        invariant
            v@.len() <= s@.len(),
            chars.remaining() == s@.skip(v@.len() as int),
            v@ == s@.take(v@.len() as int),
        ensures
            v@.len() == s@.len(),
        decreases s@.len() - v@.len(),
    {
        match chars.next() {
            Some(c) => {
                let ghost before = v@;
                v.push(c);
                assert(v@ =~= s@.take(before.len() as int + 1));
            },
            None => {
                break ;
            },
        }
    }
    assert(s@.take(s@.len() as int) == s@);
    v
}

/// Whether the characters of `v` before position `at` make a local part.
fn is_valid_local_part(v: &Vec<char>, at: usize) -> (r: bool)
    requires
        at <= v@.len(),
    ensures
        r == valid_local_part(v@.take(at as int)),
{
    let ghost l = v@.take(at as int);
    if at == 0 {
        return false;
    }
    let mut i: usize = 0;
    while i < at
        invariant
            i <= at <= v@.len(),
            l == v@.take(at as int),
            forall|j: int| 0 <= j < i ==> is_local_char(#[trigger] l[j]),
        decreases at - i,
    {
        if !is_local(v[i]) {
            assert(!is_local_char(l[i as int]));
            return false;
        }
        i += 1;
    }
    true
}

/// Whether the characters of `v` from position `start` on make a domain.
fn is_valid_domain(v: &Vec<char>, start: usize) -> (r: bool)
    requires
        start <= v@.len(),
    ensures
        r == valid_domain(v@.skip(start as int)),
{
    let ghost d = v@.skip(start as int);
    let n = v.len();
    if start == n {
        return false;
    }
    if !is_alphanumeric_char(v[start]) || !is_alphanumeric_char(v[n - 1]) {
        assert(d[0] == v@[start as int]);
        assert(d[d.len() - 1] == v@[n - 1]);
        return false;
    }
    let mut i: usize = start;
    let mut run: usize = 0;
    while i < n
        invariant
            start <= i <= n,
            n == v@.len(),
            d == v@.skip(start as int),
            run == label_run(d, i - start),
            run <= MAX_LABEL_LENGTH,
            forall|j: int| 0 <= j < i - start ==> is_domain_char(#[trigger] d[j]),
            forall|j: int|
                0 <= j < i - start && j < d.len() - 1 ==> (#[trigger] d[j] == '.'
                    ==> is_alphanumeric(d[j + 1])),
            forall|j: int|
                0 <= j < i - start && j < d.len() - 1 ==> (#[trigger] d[j] == '-' ==> d[j + 1]
                    != '.'),
            forall|j: int| 0 <= j <= i - start ==> #[trigger] label_run(d, j) <= MAX_LABEL_LENGTH,
        decreases n - i,
    {
        let c = v[i];
        let ghost k = i - start;
        assert(d[k] == c);
        if c == '.' {
            if i + 1 < n && !is_alphanumeric_char(v[i + 1]) {
                assert(d[k + 1] == v@[i + 1]);
                return false;
            }
            run = 0;
        } else if c == '-' {
            if i + 1 < n && v[i + 1] == '.' {
                assert(d[k + 1] == v@[i + 1]);
                return false;
            }
            run += 1;
        } else if is_alphanumeric_char(c) {
            run += 1;
        } else {
            assert(!is_domain_char(d[k]));
            return false;
        }
        if run > MAX_LABEL_LENGTH {
            assert(label_run(d, k + 1) == run);
            return false;
        }
        i += 1;
    }
    assert(d[0] == v@[start as int]);
    assert(d[d.len() - 1] == v@[n - 1]);
    true
}

/// Returns `true` if the input is a syntactically valid email address,
/// `false` otherwise.
pub fn is_valid_email(s: &str) -> (r: bool)
    ensures
        r == valid_email(s@),
{
    let v = chars_of(s);
    let n = v.len();
    let mut at: usize = 0;
    while at < n && v[at] != '@'
        invariant
            at <= n,
            n == v@.len(),
            forall|j: int| 0 <= j < at ==> #[trigger] v@[j] != '@',
        decreases n - at,
    {
        at += 1;
    }
    if at == n {
        assert forall|other: int| !splits_at(s@, other) by {}
        return false;
    }
    let r = is_valid_local_part(&v, at) && is_valid_domain(&v, at + 1);
    proof {
        if r {
            assert(splits_at(s@, at as int));
        } else {
            assert forall|other: int| !splits_at(s@, other) by {
                if splits_at(s@, other) {
                    if other < at {
                        assert(v@[other] != '@');
                    } else if other > at {
                        assert(s@.take(other)[at as int] == '@');
                        assert(!is_local_char('@'));
                    }
                }
            }
        }
    }
    r
}

/// A subscriber's display name, known to satisfy the rule for names.
#[derive(Debug)]
pub struct SubscriberName(String);

/// What is reported of a name that breaks the rule.
pub open spec fn invalid_name_message(s: Seq<char>) -> Seq<char> {
    s + " is not a valid subscriber name."@
}

impl View for SubscriberName {
    type V = Seq<char>;

    closed spec fn view(&self) -> Seq<char> {
        self.0@
    }
}

impl Clone for SubscriberName {
    fn clone(&self) -> (r: Self)
        ensures
            r@ == self@,
    {
        proof {
            use_type_invariant(self);
        }
        SubscriberName(self.0.clone())
    }
}

impl SubscriberName {
    #[verifier::type_invariant]
    spec fn well_formed(self) -> bool {
        valid_name(self.0@)
    }

    /// Accepts `s` as a name if it satisfies the rule for names, and says
    /// what is wrong with it otherwise.
    pub fn parse(s: String) -> (r: Result<SubscriberName, String>)
        ensures
            match r {
                Ok(name) => valid_name(s@) && name@ == s@,
                Err(reason) => !valid_name(s@) && reason@ == invalid_name_message(s@),
            },
    {
        if is_valid_name(s.as_str()) {
            Ok(SubscriberName(s))
        } else {
            Err(s.concat(" is not a valid subscriber name."))
        }
    }

    /// The name as text.
    pub fn as_ref(&self) -> (r: &str)
        ensures
            r@ == self@,
            valid_name(r@),
    {
        proof {
            use_type_invariant(self);
        }
        self.0.as_str()
    }
}

/// A subscriber's email address, known to be syntactically valid.
#[derive(Debug)]
pub struct SubscriberEmail(String);

/// What is reported of an address that is not valid.
pub open spec fn invalid_email_message(s: Seq<char>) -> Seq<char> {
    s + " is not a valid subscriber email."@
}

impl View for SubscriberEmail {
    type V = Seq<char>;

    closed spec fn view(&self) -> Seq<char> {
        self.0@
    }
}

impl Clone for SubscriberEmail {
    fn clone(&self) -> (r: Self)
        ensures
            r@ == self@,
    {
        proof {
            use_type_invariant(self);
        }
        SubscriberEmail(self.0.clone())
    }
}

impl SubscriberEmail {
    #[verifier::type_invariant]
    spec fn well_formed(self) -> bool {
        valid_email(self.0@)
    }

    /// Accepts `s` as an address if it is syntactically valid, and says what
    /// is wrong with it otherwise.
    pub fn parse(s: String) -> (r: Result<SubscriberEmail, String>)
        ensures
            match r {
                Ok(email) => valid_email(s@) && email@ == s@,
                Err(reason) => !valid_email(s@) && reason@ == invalid_email_message(s@),
            },
    {
        if is_valid_email(s.as_str()) {
            Ok(SubscriberEmail(s))
        } else {
            Err(s.concat(" is not a valid subscriber email."))
        }
    }

    /// The address as text.
    pub fn as_ref(&self) -> (r: &str)
        ensures
            r@ == self@,
            valid_email(r@),
    {
        proof {
            use_type_invariant(self);
        }
        self.0.as_str()
    }
}

/// A validated request to subscribe.
#[derive(Clone, Debug)]
pub struct NewSubscriber {
    pub email: SubscriberEmail,
    pub name: SubscriberName,
}

pub struct NewSubscriberView {
    pub email: Seq<char>,
    pub name: Seq<char>,
}

impl View for NewSubscriber {
    type V = NewSubscriberView;

    open spec fn view(&self) -> NewSubscriberView {
        NewSubscriberView { email: self.email@, name: self.name@ }
    }
}

} // verus!
