//! Crawler detection against a table of compiled user-agent signatures.
//!
//! The table is built once at startup from an externally maintained list of
//! regex patterns (one per known crawler) and is immutable afterwards. Each
//! entry keeps the compiled regex beside its pattern, so no pattern is ever
//! re-compiled per request.

use vstd::prelude::*;

verus! {

/// What `regex::Regex::is_match` returns for a given pattern and text: the
/// regex engine is deterministic, so the result is a function of the two
/// strings alone.
pub uninterp spec fn regex_match(pattern: Seq<char>, text: Seq<char>) -> bool;

/// Whether `regex::Regex::new` accepts a pattern: compilation success is a
/// function of the pattern alone.
pub uninterp spec fn regex_ok(pattern: Seq<char>) -> bool;

#[verifier::external_type_specification]
#[verifier::external_body]
pub struct ExRegex(regex::Regex);

/// One crawler signature: a pattern and the regex compiled from it.
///
/// The `compiled` field is only ever built from `pattern` (see
/// [`CrawlerSignature::new`], the sole constructor), which is what lets
/// [`CrawlerSignature::is_match`] speak of the pattern alone.
pub struct CrawlerSignature {
    pattern: String,
    compiled: regex::Regex,
}

impl View for CrawlerSignature {
    type V = Seq<char>;

    closed spec fn view(&self) -> Seq<char> {
        self.pattern@
    }
}

impl CrawlerSignature {
    /// Relies on `regex::Regex::new`: compiles the pattern, `Err` exactly on
    /// invalid pattern syntax, deterministic in the pattern.
    #[verifier::external_body]
    pub fn new(pattern: String) -> (r: Option<CrawlerSignature>)
        ensures
            r is Some <==> regex_ok(pattern@),
            r matches Some(s) ==> s@ == pattern@,
    {
        match regex::Regex::new(&pattern) {
            Ok(compiled) => Some(CrawlerSignature { pattern, compiled }),
            Err(_) => None,
        }
    }

    /// Relies on `regex::Regex::is_match`: true iff the compiled pattern
    /// matches anywhere in `text`; deterministic in the pattern and the text.
    #[verifier::external_body]
    pub fn is_match(&self, text: &str) -> (r: bool)
        ensures
            r == regex_match(self@, text@),
    {
        self.compiled.is_match(text)
    }
}

/// Some pattern of the table matches the text.
pub open spec fn matches_any(table: Seq<Seq<char>>, text: Seq<char>) -> bool {
    exists|i: int| 0 <= i < table.len() && regex_match(table[i], text)
}

/// The crawler-signature table. Its view is the sequence of its patterns.
pub struct CrawlerTable {
    signatures: Vec<CrawlerSignature>,
}

impl View for CrawlerTable {
    type V = Seq<Seq<char>>;

    closed spec fn view(&self) -> Seq<Seq<char>> {
        self.signatures@.map_values(|s: CrawlerSignature| s@)
    }
}

impl CrawlerTable {
    /// Compiles every pattern; `None` exactly when some pattern is invalid,
    /// so that a misconfigured table is rejected at startup rather than
    /// silently thinned.
    pub fn new(patterns: Vec<String>) -> (r: Option<CrawlerTable>)
        ensures
            r is Some <==> forall|i: int| 0 <= i < patterns@.len() ==> regex_ok(patterns@[i]@),
            r matches Some(t) ==> t@ == patterns@.map_values(|p: String| p@),
    {
        let mut signatures: Vec<CrawlerSignature> = Vec::new();
        let mut i: usize = 0;
        while i < patterns.len()
            invariant
                i <= patterns@.len(),
                signatures@.len() == i,
                forall|k: int| 0 <= k < i ==> signatures@[k]@ == patterns@[k]@,
                forall|k: int| 0 <= k < i ==> regex_ok(#[trigger] patterns@[k]@),
            decreases patterns@.len() - i,
        {
            match CrawlerSignature::new(patterns[i].clone()) {
                Some(sig) => signatures.push(sig),
                None => {
                    proof {
                        assert(!regex_ok(patterns@[i as int]@));
                    }
                    return None;
                },
            }
            i += 1;
        }
        let table = CrawlerTable { signatures };
        proof {
            assert(table@ =~= patterns@.map_values(|p: String| p@));
        }
        Some(table)
    }
}

/// Whether the user agent matches any signature of the crawler table.
pub fn is_crawler(table: &CrawlerTable, user_agent: &str) -> (r: bool)
    ensures
        r == matches_any(table@, user_agent@),
{
    let mut i: usize = 0;
    while i < table.signatures.len()
        invariant
            i <= table.signatures@.len(),
            table@ == table.signatures@.map_values(|s: CrawlerSignature| s@),
            forall|k: int| 0 <= k < i ==> !regex_match(table@[k], user_agent@),
        decreases table.signatures@.len() - i,
    {
        if table.signatures[i].is_match(user_agent) {
            proof {
                assert(table@[i as int] == table.signatures@[i as int]@);
            }
            return true;
        }
        i += 1;
    }
    false
}

} // verus!
