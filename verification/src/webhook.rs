//! Incoming webhooks, their headers, and verification results.

use vstd::prelude::*;
use crate::payment::{new_uuid_text, UUID_TEXT_LEN};
use crate::text::{to_lowercase, unicode_lowercase};
use crate::time::{now, UtcTime};

verus! {

/// Unique webhook delivery ID.
#[derive(Debug, Clone, PartialEq, Eq, Hash)]
pub struct WebhookId(pub String);

impl View for WebhookId {
    type V = Seq<char>;

    open spec fn view(&self) -> Seq<char> {
        self.0@
    }
}

impl WebhookId {
    /// A fresh random identifier (a hyphenated UUID).
    pub fn new() -> (r: Self)
        ensures
            r@.len() == UUID_TEXT_LEN,
    {
        Self(new_uuid_text())
    }

    pub fn from_str(s: &str) -> (r: Self)
        ensures
            r@ == s@,
    {
        Self(String::from_str(s))
    }

    /// The identifier as text (what the identifier displays as).
    pub fn to_string(&self) -> (r: String)
        ensures
            r@ == self@,
    {
        self.0.clone()
    }
}

impl Default for WebhookId {
    fn default() -> (r: Self)
        ensures
            r@.len() == UUID_TEXT_LEN,
    {
        Self::new()
    }
}

/// HTTP headers: names mapped to values, each name present at most once.
#[derive(Debug)]
pub struct HeaderMap {
    entries: Vec<(String, String)>,
}

/// The pairs of a header list read as text.
pub open spec fn pairs_view(entries: Seq<(String, String)>) -> Seq<(Seq<char>, Seq<char>)> {
    entries.map_values(|e: (String, String)| (e.0@, e.1@))
}

/// No header name occurs twice.
pub open spec fn names_distinct(entries: Seq<(Seq<char>, Seq<char>)>) -> bool {
    forall|i: int, j: int|
        0 <= i < entries.len() && 0 <= j < entries.len() && i != j ==> #[trigger] entries[i].0
            != #[trigger] entries[j].0
}

/// The position of the header named exactly `name`, if any.
pub open spec fn name_index(entries: Seq<(Seq<char>, Seq<char>)>, name: Seq<char>) -> Option<int> {
    if exists|i: int| 0 <= i < entries.len() && entries[i].0 == name {
        Some(choose|i: int| 0 <= i < entries.len() && entries[i].0 == name)
    } else {
        None
    }
}

/// The headers after setting `name` to `value`: the entry of that exact
/// name gets the value in place, or a new entry is added at the end.
pub open spec fn header_insert(
    entries: Seq<(Seq<char>, Seq<char>)>,
    name: Seq<char>,
    value: Seq<char>,
) -> Seq<(Seq<char>, Seq<char>)> {
    match name_index(entries, name) {
        Some(i) => entries.update(i, (name, value)),
        None => entries.push((name, value)),
    }
}

/// Two header names that match regardless of case.
pub open spec fn names_match(a: Seq<char>, b: Seq<char>) -> bool {
    unicode_lowercase(a) == unicode_lowercase(b)
}

/// The first entry, in insertion order, whose name matches `name`
/// regardless of case.
pub open spec fn first_match(entries: Seq<(Seq<char>, Seq<char>)>, name: Seq<char>, i: int) -> bool {
    &&& 0 <= i < entries.len()
    &&& names_match(entries[i].0, name)
    &&& forall|j: int| 0 <= j < i ==> !names_match(#[trigger] entries[j].0, name)
}

/// The value found for `name` by a case-insensitive lookup.
pub open spec fn lookup_value(entries: Seq<(Seq<char>, Seq<char>)>, name: Seq<char>) -> Option<
    Seq<char>,
> {
    if exists|i: int| first_match(entries, name, i) {
        Some(entries[choose|i: int| first_match(entries, name, i)].1)
    } else {
        None
    }
}

impl View for HeaderMap {
    type V = Seq<(Seq<char>, Seq<char>)>;

    closed spec fn view(&self) -> Seq<(Seq<char>, Seq<char>)> {
        pairs_view(self.entries@)
    }
}

impl HeaderMap {
    #[verifier::type_invariant]
    pub closed spec fn wf(self) -> bool {
        names_distinct(pairs_view(self.entries@))
    }

    /// No header name occurs twice in a header map.
    pub proof fn law_names_are_distinct(self)
        requires
            self.wf(),
        ensures
            names_distinct(self@),
    {
    }

    /// An empty header map.
    pub fn new() -> (r: Self)
        ensures
            r@.len() == 0,
    {
        HeaderMap { entries: Vec::new() }
    }

    /// Number of headers.
    pub fn len(&self) -> (r: usize)
        ensures
            r == self@.len(),
    {
        self.entries.len()
    }

    /// Sets the value of a header, replacing the value of the same name if
    /// there is one (names compared exactly) and adding it at the end
    /// otherwise. Returns the value that was replaced.
    pub fn insert(&mut self, name: String, value: String) -> (r: Option<String>)
        ensures
            final(self)@ == header_insert(old(self)@, name@, value@),
            match name_index(old(self)@, name@) {
                Some(i) => r matches Some(v) && v@ == old(self)@[i].1,
                None => r is None,
            },
    {
        proof {
            use_type_invariant(&*self);
        }
        let mut i: usize = 0;
        while i < self.entries.len()
            invariant
                i <= self.entries@.len(),
                self@ == old(self)@,
                names_distinct(self@),
                forall|j: int| 0 <= j < i ==> (#[trigger] self@[j]).0 != name@,
            decreases self.entries.len() - i,
        {
            if self.entries[i].0 == name {
                proof {
                    assert(self@[i as int].0 == name@);
                    let k = choose|k: int| 0 <= k < self@.len() && self@[k].0 == name@;
                    assert(k == i);
                }
                let ghost before = self@;
                let mut entries: Vec<(String, String)> = Vec::new();
                std::mem::swap(&mut entries, &mut self.entries);
                let old_value = entries[i].1.clone();
                entries.set(i, (name, value));
                proof {
                    assert(pairs_view(entries@) =~= before.update(i as int, (name@, value@)));
                    assert(names_distinct(pairs_view(entries@))) by {
                        assert forall|a: int, b: int|
                            0 <= a < entries@.len() && 0 <= b < entries@.len() && a != b implies
                            #[trigger] pairs_view(entries@)[a].0 != #[trigger] pairs_view(entries@)[b].0 by {
                            assert(pairs_view(entries@)[a].0 == before[a].0);
                            assert(pairs_view(entries@)[b].0 == before[b].0);
                        }
                    }
                }
                self.entries = entries;
                return Some(old_value);
            }
            i = i + 1;
        }
        let ghost before = self@;
        let mut entries: Vec<(String, String)> = Vec::new();
        std::mem::swap(&mut entries, &mut self.entries);
        entries.push((name, value));
        assert(pairs_view(entries@) =~= before.push((name@, value@)));
        assert(names_distinct(pairs_view(entries@))) by {
            assert forall|a: int, b: int|
                0 <= a < entries@.len() && 0 <= b < entries@.len() && a != b implies
                #[trigger] pairs_view(entries@)[a].0 != #[trigger] pairs_view(entries@)[b].0 by {
                if a < before.len() && b < before.len() {
                    assert(pairs_view(entries@)[a] == before[a]);
                    assert(pairs_view(entries@)[b] == before[b]);
                } else if a < before.len() {
                    assert(pairs_view(entries@)[a] == before[a]);
                } else {
                    assert(pairs_view(entries@)[b] == before[b]);
                }
            }
        }
        self.entries = entries;
        None
    }

    /// Case-insensitive lookup: the value of the first header, in insertion
    /// order, whose name equals `name` once both are lower-cased.
    pub fn get(&self, name: &str) -> (r: Option<&str>)
        ensures
            match r {
                Some(v) => lookup_value(self@, name@) == Some(v@),
                None => lookup_value(self@, name@) is None,
            },
    {
        let lower = to_lowercase(name);
        let mut i: usize = 0;
        while i < self.entries.len()
            invariant
                i <= self.entries@.len(),
                lower@ == unicode_lowercase(name@),
                forall|j: int| 0 <= j < i ==> !names_match(#[trigger] self@[j].0, name@),
            decreases self.entries.len() - i,
        {
            let key_lower = to_lowercase(self.entries[i].0.as_str());
            if key_lower == lower {
                assert(first_match(self@, name@, i as int));
                proof {
                    let k = choose|k: int| first_match(self@, name@, k);
                    if k < i {
                        assert(!names_match(self@[k].0, name@));
                    }
                    if k > i {
                        assert(!names_match(self@[i as int].0, name@));
                    }
                }
                return Some(self.entries[i].1.as_str());
            }
            i = i + 1;
        }
        proof {
            if exists|k: int| first_match(self@, name@, k) {
                let k = choose|k: int| first_match(self@, name@, k);
                assert(!names_match(self@[k].0, name@));
            }
        }
        None
    }
}

/// Raw incoming webhook before verification.
#[derive(Debug)]
pub struct RawWebhook {
    /// Webhook delivery ID (ours, not the provider's)
    pub id: WebhookId,
    /// HTTP headers from the webhook request
    pub headers: HeaderMap,
    /// Raw body bytes as a string
    pub body: String,
    /// When the webhook was received
    pub received_at: UtcTime,
    /// Source IP address if available
    pub source_ip: Option<String>,
}

impl RawWebhook {
    /// A webhook received now, with a fresh random delivery ID.
    pub fn new(headers: HeaderMap, body: String) -> (r: Self)
        ensures
            r.headers@ == headers@,
            r.body@ == body@,
            r.id@.len() == UUID_TEXT_LEN,
            r.source_ip is None,
    {
        Self { id: WebhookId::new(), headers, body, received_at: now(), source_ip: None }
    }

    /// Get a header value (case-insensitive lookup).
    pub fn header(&self, name: &str) -> (r: Option<&str>)
        ensures
            match r {
                Some(v) => lookup_value(self.headers@, name@) == Some(v@),
                None => lookup_value(self.headers@, name@) is None,
            },
    {
        self.headers.get(name)
    }
}

/// Result of webhook signature verification.
#[derive(Debug, Clone, PartialEq, Eq)]
pub enum VerificationResult {
    /// Signature is valid
    Valid,
    /// Signature is invalid
    Invalid { reason: String },
    /// Timestamp is outside acceptable window
    TimestampExpired { received: String, tolerance_secs: u64 },
    /// Duplicate delivery detected
    Duplicate { original_id: String },
    /// Verification was skipped (e.g., in dev mode)
    Skipped { reason: String },
}

impl VerificationResult {
    pub open spec fn spec_is_valid(&self) -> bool {
        self is Valid
    }

    pub open spec fn spec_is_rejected(&self) -> bool {
        self is Invalid || self is TimestampExpired
    }

    pub fn is_valid(&self) -> (r: bool)
        ensures
            r == self.spec_is_valid(),
    {
        match self {
            VerificationResult::Valid => true,
            _ => false,
        }
    }

    pub fn is_rejected(&self) -> (r: bool)
        ensures
            r == self.spec_is_rejected(),
    {
        match self {
            VerificationResult::Invalid { .. } | VerificationResult::TimestampExpired { .. } => true,
            _ => false,
        }
    }
}

/// A header that is set is read back by its name, as long as no header of
/// another name matches that name regardless of case.
pub proof fn law_header_read_back(
    entries: Seq<(Seq<char>, Seq<char>)>,
    name: Seq<char>,
    value: Seq<char>,
)
    requires
        names_distinct(entries),
        forall|j: int|
            0 <= j < entries.len() && (#[trigger] entries[j]).0 != name ==> !names_match(
                entries[j].0,
                name,
            ),
    ensures
        lookup_value(header_insert(entries, name, value), name) == Some(value),
{
    let m = header_insert(entries, name, value);
    let k: int = match name_index(entries, name) {
        Some(i) => i,
        None => entries.len() as int,
    };
    if let Some(i) = name_index(entries, name) {
        assert(0 <= i < entries.len() && entries[i].0 == name);
    }
    assert(m[k] == (name, value));
    assert forall|j: int| 0 <= j < k implies !names_match(#[trigger] m[j].0, name) by {
        assert(m[j] == entries[j]);
        if entries[j].0 == name {
            if let Some(i) = name_index(entries, name) {
                assert(entries[i].0 == entries[j].0);
            } else {
                assert(0 <= j < entries.len() && entries[j].0 == name);
            }
        }
    }
    assert(first_match(m, name, k));
    let c = choose|c: int| first_match(m, name, c);
    if c < k {
        assert(!names_match(m[c].0, name));
    }
    if c > k {
        assert(!names_match(m[k].0, name));
    }
}

/// No result is both valid and rejected.
pub proof fn law_valid_is_not_rejected(r: VerificationResult)
    ensures
        !(r.spec_is_valid() && r.spec_is_rejected()),
{
}

} // verus!
