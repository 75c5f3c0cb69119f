//! The words of the `runtime` attribute.

use crate::text::same_text;
use vstd::prelude::*;

verus! {

/// A word that the declaration of an aggregate may use.
#[derive(Copy, Clone, Debug, PartialEq, Eq, Hash)]
pub struct Symbol(&'static str);

impl View for Symbol {
    type V = Seq<char>;

    closed spec fn view(&self) -> Seq<char> {
        self.0@
    }
}

impl Symbol {
    /// The name of the attribute: `runtime`.
    pub fn runtime() -> (symbol: Symbol)
        ensures
            symbol@ == "runtime"@,
    {
        Symbol("runtime")
    }

    /// `shared`: the service runs on the shared pool.
    pub fn shared() -> (symbol: Symbol)
        ensures
            symbol@ == "shared"@,
    {
        Symbol("shared")
    }

    /// `skip`: the field is no service.
    pub fn skip() -> (symbol: Symbol)
        ensures
            symbol@ == "skip"@,
    {
        Symbol("skip")
    }

    /// `io`: the pool of the service drives I/O.
    pub fn io_driver() -> (symbol: Symbol)
        ensures
            symbol@ == "io"@,
    {
        Symbol("io")
    }

    /// `time`: the pool of the service keeps time.
    pub fn time_driver() -> (symbol: Symbol)
        ensures
            symbol@ == "time"@,
    {
        Symbol("time")
    }

    pub fn as_str(&self) -> (word: &'static str)
        ensures
            word@ == self@,
    {
        self.0
    }

    /// Whether `word` is this symbol.
    pub fn is(&self, word: &str) -> (same: bool)
        ensures
            same == (word@ == self@),
    {
        same_text(word, self.0)
    }
}

/// The five words differ from one another.
pub proof fn lemma_symbols_differ()
    ensures
        "runtime"@ != "shared"@,
        "runtime"@ != "skip"@,
        "runtime"@ != "io"@,
        "runtime"@ != "time"@,
        "shared"@ != "skip"@,
        "shared"@ != "io"@,
        "shared"@ != "time"@,
        "skip"@ != "io"@,
        "skip"@ != "time"@,
        "io"@ != "time"@,
{
    reveal_strlit("runtime");
    reveal_strlit("shared");
    reveal_strlit("skip");
    reveal_strlit("io");
    reveal_strlit("time");
    assert("runtime"@.len() == 7);
    assert("shared"@.len() == 6);
    assert("skip"@.len() == 4);
    assert("io"@.len() == 2);
    assert("time"@.len() == 4);
    assert("skip"@[0] == 's');
    assert("time"@[0] == 't');
}

} // verus!
