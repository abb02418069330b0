//! One-time passcodes: how they are made, where they wait, and how a
//! candidate is checked against the one that waits.
//!
//! At most one code waits per phone number: a new request replaces the code
//! of an earlier one. A code can be checked once. Whatever the outcome, it is
//! gone afterwards.

use vstd::prelude::*;
use vstd::string::*;
use crate::clock::deadline;
use crate::clock::deadline_after;
use crate::entropy::random_below;
use crate::text::text_equal;

verus! {

/// Number of digits of a passcode.
pub const OTP_LENGTH: usize = 6;

/// Seconds for which a passcode waits unless the deployment says otherwise.
pub const DEFAULT_OTP_TTL: u32 = 180;

/// The character of a decimal digit.
pub open spec fn digit_char(d: int) -> char {
    seq!['0', '1', '2', '3', '4', '5', '6', '7', '8', '9'][d]
}

/// Whether a character is a decimal digit.
pub open spec fn is_digit(c: char) -> bool {
    exists|d: int| 0 <= d < 10 && c == #[trigger] digit_char(d)
}

/// Whether a text is a passcode: `OTP_LENGTH` decimal digits.
pub open spec fn is_otp(code: Seq<char>) -> bool {
    code.len() == OTP_LENGTH && forall|i: int| 0 <= i < code.len() ==> is_digit(#[trigger] code[i])
}

/// The text of one decimal digit.
fn digit_text(d: u32) -> (r: &'static str)
    requires
        d < 10,
    ensures
        r@ == seq![digit_char(d as int)],
{
    proof {
        reveal_strlit("0");
        reveal_strlit("1");
        reveal_strlit("2");
        reveal_strlit("3");
        reveal_strlit("4");
        reveal_strlit("5");
        reveal_strlit("6");
        reveal_strlit("7");
        reveal_strlit("8");
        reveal_strlit("9");
    }
    let r = match d {
        0 => "0",
        1 => "1",
        2 => "2",
        3 => "3",
        4 => "4",
        5 => "5",
        6 => "6",
        7 => "7",
        8 => "8",
        _ => "9",
    };
    assert(r@ =~= seq![digit_char(d as int)]);
    r
}

/// A fresh passcode: `OTP_LENGTH` digits, each drawn at random.
pub fn generate_otp() -> (r: String)
    ensures
        is_otp(r@),
{
    let mut code = String::from_str("");
    proof {
        reveal_strlit("");
    }
    let mut i: usize = 0;
    while i < OTP_LENGTH
        invariant
            i <= OTP_LENGTH,
            code@.len() == i,
            forall|k: int| 0 <= k < code@.len() ==> is_digit(#[trigger] code@[k]),
        decreases OTP_LENGTH - i,
    {
        let d = random_below(10);
        let ghost before = code@;
        code.append(digit_text(d));
        proof {
            assert(code@ == before.push(digit_char(d as int)));
            assert forall|k: int| 0 <= k < code@.len() implies is_digit(#[trigger] code@[k]) by {
                if k < before.len() {
                    assert(code@[k] == before[k]);
                } else {
                    assert(code@[k] == digit_char(d as int));
                }
            }
        }
        i = i + 1;
    }
    code
}

/// The key under which the code of a phone number waits in a shared store.
pub open spec fn otp_key_of(phone_number: Seq<char>) -> Seq<char> {
    "otp:"@ + phone_number
}

/// The key under which the code of a phone number waits in a shared store.
pub fn otp_key(phone_number: &str) -> (r: String)
    ensures
        r@ == otp_key_of(phone_number@),
{
    let mut key = String::from_str("otp:");
    key.append(phone_number);
    key
}

/// Whether a candidate is the code that waits. No code waits where `stored`
/// is `None`. The comparison tells nothing, by the time it takes, about where
/// the two differ.
pub fn otp_matches(stored: Option<&str>, candidate: &str) -> (r: bool)
    ensures
        r == (stored matches Some(code) && code@ == candidate@),
{
    match stored {
        Some(code) => text_equal(code, candidate),
        None => false,
    }
}

/// A code that waits for its phone number.
#[derive(Debug, Clone, PartialEq, Eq)]
pub struct PendingCode {
    pub phone_number: String,
    pub code: String,
    /// The first second at which the code is no longer accepted.
    pub expires_at: i64,
}

/// A waiting code as mathematical values.
#[verifier::ext_equal]
pub struct PendingCodeView {
    pub code: Seq<char>,
    pub expires_at: i64,
}

impl PendingCodeView {
    /// Whether the code is accepted for a candidate at `now`: the two are
    /// equal and the code has not run out.
    pub open spec fn accepts(self, candidate: Seq<char>, now: i64) -> bool {
        self.code == candidate && now < self.expires_at
    }
}

/// Whether a phone number occurs among the entries.
spec fn listed(entries: Seq<PendingCode>, phone_number: Seq<char>) -> bool {
    exists|i: int| 0 <= i < entries.len() && (#[trigger] entries[i]).phone_number@ == phone_number
}

/// Where a phone number occurs among the entries.
spec fn position(entries: Seq<PendingCode>, phone_number: Seq<char>) -> int {
    choose|i: int| 0 <= i < entries.len() && (#[trigger] entries[i]).phone_number@ == phone_number
}

/// Whether no phone number occurs twice.
spec fn unique(entries: Seq<PendingCode>) -> bool {
    forall|i: int, j: int|
        0 <= i < j < entries.len() ==> (#[trigger] entries[i]).phone_number@ != (
        #[trigger] entries[j]).phone_number@
}

impl View for PendingCode {
    type V = PendingCodeView;

    open spec fn view(&self) -> PendingCodeView {
        PendingCodeView { code: self.code@, expires_at: self.expires_at }
    }
}

/// The codes that wait, by phone number.
spec fn as_map(entries: Seq<PendingCode>) -> Map<Seq<char>, PendingCodeView> {
    Map::new(
        |k: Seq<char>| listed(entries, k),
        |k: Seq<char>| entries[position(entries, k)]@,
    )
}

/// In a list without repetition, a phone number occurs where it is found.
proof fn lemma_position(entries: Seq<PendingCode>, i: int)
    requires
        unique(entries),
        0 <= i < entries.len(),
    ensures
        listed(entries, entries[i].phone_number@),
        position(entries, entries[i].phone_number@) == i,
{
    let k = entries[i].phone_number@;
    assert(listed(entries, k));
    let p = position(entries, k);
    if p < i {
        assert(entries[p].phone_number@ != entries[i].phone_number@);
    } else if i < p {
        assert(entries[i].phone_number@ != entries[p].phone_number@);
    }
}

/// Taking an entry out takes its phone number out of the map and leaves the
/// rest as it was.
proof fn lemma_remove(entries: Seq<PendingCode>, at: int)
    requires
        unique(entries),
        0 <= at < entries.len(),
    ensures
        unique(entries.remove(at)),
        as_map(entries.remove(at)) == as_map(entries).remove(entries[at].phone_number@),
{
    let rest = entries.remove(at);
    let gone = entries[at].phone_number@;
    assert forall|i: int, j: int| 0 <= i < j < rest.len() implies (#[trigger] rest[i]).phone_number@
        != (#[trigger] rest[j]).phone_number@ by {
        let a = if i < at { i } else { i + 1 };
        let b = if j < at { j } else { j + 1 };
        assert(rest[i] == entries[a]);
        assert(rest[j] == entries[b]);
    }
    let left = as_map(rest);
    let right = as_map(entries).remove(gone);
    assert forall|k: Seq<char>| left.dom().contains(k) <==> right.dom().contains(k) by {
        if listed(rest, k) {
            let i = position(rest, k);
            let a = if i < at { i } else { i + 1 };
            assert(rest[i] == entries[a]);
            assert(entries[a].phone_number@ == k);
            lemma_position(entries, a);
            lemma_position(entries, at);
        }
        if listed(entries, k) && k != gone {
            let a = position(entries, k);
            let i = if a < at { a } else { a - 1 };
            assert(rest[i] == entries[a]);
        }
    }
    assert forall|k: Seq<char>| #[trigger] left.dom().contains(k) implies left[k] == right[k] by {
        let i = position(rest, k);
        let a = if i < at { i } else { i + 1 };
        assert(rest[i] == entries[a]);
        lemma_position(entries, a);
    }
    assert(left =~= right);
}

/// Adding an entry for a phone number that does not occur puts it into the
/// map and leaves the rest as it was.
proof fn lemma_push(entries: Seq<PendingCode>, entry: PendingCode)
    requires
        unique(entries),
        !listed(entries, entry.phone_number@),
    ensures
        unique(entries.push(entry)),
        as_map(entries.push(entry)) == as_map(entries).insert(entry.phone_number@, entry@),
{
    let more = entries.push(entry);
    let fresh = entry.phone_number@;
    assert forall|i: int, j: int| 0 <= i < j < more.len() implies (#[trigger] more[i]).phone_number@
        != (#[trigger] more[j]).phone_number@ by {
        assert(more[i] == entries[i]);
        if j < entries.len() {
            assert(more[j] == entries[j]);
        }
    }
    let left = as_map(more);
    let right = as_map(entries).insert(fresh, entry@);
    assert(more[entries.len() as int] == entry);
    assert forall|k: Seq<char>| left.dom().contains(k) <==> right.dom().contains(k) by {
        if listed(more, k) {
            let i = position(more, k);
            if i < entries.len() {
                assert(more[i] == entries[i]);
            }
        }
        if listed(entries, k) {
            let a = position(entries, k);
            assert(more[a] == entries[a]);
        }
    }
    assert forall|k: Seq<char>| #[trigger] left.dom().contains(k) implies left[k] == right[k] by {
        let i = position(more, k);
        lemma_position(more, i);
        if i < entries.len() {
            assert(more[i] == entries[i]);
            lemma_position(entries, i);
        }
    }
    assert(left =~= right);
}

/// The codes that wait for their phone numbers.
pub struct CodeStore {
    entries: Vec<PendingCode>,
}

impl View for CodeStore {
    type V = Map<Seq<char>, PendingCodeView>;

    closed spec fn view(&self) -> Map<Seq<char>, PendingCodeView> {
        as_map(self.entries@)
    }
}

impl CodeStore {
    /// Whether the store holds at most one code per phone number.
    pub closed spec fn wf(&self) -> bool {
        unique(self.entries@)
    }

    /// The store in which no code waits.
    pub fn new() -> (r: CodeStore)
        ensures
            r.wf(),
            r@ == Map::<Seq<char>, PendingCodeView>::empty(),
    {
        let r = CodeStore { entries: Vec::new() };
        assert(r@ =~= Map::<Seq<char>, PendingCodeView>::empty());
        r
    }

    /// Where the code of a phone number waits.
    fn find(&self, phone_number: &str) -> (r: Option<usize>)
        requires
            self.wf(),
        ensures
            match r {
                Some(at) => at < self.entries@.len() && self.entries@[at as int].phone_number@
                    == phone_number@ && self@.contains_key(phone_number@) && self@[phone_number@]
                    == self.entries@[at as int]@,
                None => !self@.contains_key(phone_number@),
            },
    {
        let mut i: usize = 0;
        while i < self.entries.len()
            invariant
                self.wf(),
                i <= self.entries@.len(),
                forall|k: int|
                    0 <= k < i ==> (#[trigger] self.entries@[k]).phone_number@ != phone_number@,
            decreases self.entries@.len() - i,
        {
            if text_equal(self.entries[i].phone_number.as_str(), phone_number) {
                proof {
                    lemma_position(self.entries@, i as int);
                }
                return Some(i);
            }
            i = i + 1;
        }
        None
    }

    /// Takes the code of a phone number out of the store, if one waits.
    pub fn take(&mut self, phone_number: &str) -> (r: Option<PendingCode>)
        requires
            old(self).wf(),
        ensures
            final(self).wf(),
            final(self)@ == old(self)@.remove(phone_number@),
            match r {
                Some(entry) => old(self)@.contains_key(phone_number@) && entry@ == old(
                    self,
                )@[phone_number@] && entry.phone_number@ == phone_number@,
                None => !old(self)@.contains_key(phone_number@),
            },
    {
        match self.find(phone_number) {
            Some(at) => {
                proof {
                    lemma_remove(self.entries@, at as int);
                }
                let entry = self.entries.remove(at);
                Some(entry)
            },
            None => {
                assert(self@ =~= self@.remove(phone_number@));
                None
            },
        }
    }

    /// Lets a code wait for a phone number until `ttl` seconds after `now`.
    /// A code that waited for the number before is replaced.
    pub fn put(&mut self, phone_number: &str, code: String, now: i64, ttl: u32)
        requires
            old(self).wf(),
        ensures
            final(self).wf(),
            final(self)@ == old(self)@.insert(
                phone_number@,
                PendingCodeView { code: code@, expires_at: deadline_after(now, ttl) },
            ),
    {
        let ghost before = self@;
        let _ = self.take(phone_number);
        let entry = PendingCode {
            phone_number: phone_number.to_owned(),
            code,
            expires_at: deadline(now, ttl),
        };
        proof {
            assert(!self@.contains_key(phone_number@));
            assert(!as_map(self.entries@).dom().contains(entry.phone_number@));
            lemma_push(self.entries@, entry);
            assert(before.remove(phone_number@).insert(phone_number@, entry@)
                =~= before.insert(phone_number@, entry@));
        }
        self.entries.push(entry);
    }

    /// Checks a candidate against the code that waits for a phone number, and
    /// takes that code out of the store whatever the answer is. The answer is
    /// yes where a code waits, has not run out at `now`, and equals the
    /// candidate.
    pub fn redeem(&mut self, phone_number: &str, candidate: &str, now: i64) -> (r: bool)
        requires
            old(self).wf(),
        ensures
            final(self).wf(),
            final(self)@ == old(self)@.remove(phone_number@),
            r == (old(self)@.contains_key(phone_number@) && old(self)@[phone_number@].accepts(
                candidate@,
                now,
            )),
    {
        match self.take(phone_number) {
            Some(entry) => {
                let same = text_equal(entry.code.as_str(), candidate);
                same && now < entry.expires_at
            },
            None => false,
        }
    }

    /// How many codes wait.
    pub fn len(&self) -> (r: usize)
        requires
            self.wf(),
        ensures
            r == self@.dom().len(),
            self@.dom().finite(),
    {
        proof {
            lemma_size(self.entries@);
        }
        self.entries.len()
    }
}

/// A list without repetition has as many entries as its map has keys.
proof fn lemma_size(entries: Seq<PendingCode>)
    requires
        unique(entries),
    ensures
        as_map(entries).dom().finite(),
        as_map(entries).dom().len() == entries.len(),
    decreases entries.len(),
{
    if entries.len() == 0 {
        assert(as_map(entries).dom() =~= Set::<Seq<char>>::empty());
    } else {
        let last = entries.last();
        let rest = entries.drop_last();
        assert forall|i: int, j: int| 0 <= i < j < rest.len() implies (#[trigger] rest[i]).phone_number@
            != (#[trigger] rest[j]).phone_number@ by {
            assert(rest[i] == entries[i]);
            assert(rest[j] == entries[j]);
        }
        lemma_size(rest);
        if listed(rest, last.phone_number@) {
            let i = position(rest, last.phone_number@);
            assert(rest[i] == entries[i]);
            assert(entries[entries.len() - 1] == last);
        }
        lemma_push(rest, last);
        assert(rest.push(last) == entries);
        assert(as_map(entries).dom() =~= as_map(rest).dom().insert(last.phone_number@));
    }
}

} // verus!
