//! Envelopes: a success payload or a diagnostic text, never both.
use vstd::prelude::*;
use vstd::string::*;

verus! {

/// True when the text holds no NUL character, so that it can be handed out as
/// a NUL-terminated string.
pub open spec fn nul_free(text: Seq<char>) -> bool {
    !text.contains('\0')
}

/// The text that replaces a diagnostic which could not be handed out as it is.
pub open spec fn fallback_text() -> Seq<char> {
    "unreported error: the diagnostic held a NUL character"@
}

/// The diagnostic that reaches the caller for an engine message.
pub open spec fn boundary_text(message: Seq<char>) -> Seq<char> {
    if nul_free(message) {
        message
    } else {
        fallback_text()
    }
}

/// Builds the text handed out for a diagnostic message. Building it cannot
/// fail: a message that could not be NUL-terminated gives way to a fixed text.
pub fn boundary_message(message: &str) -> (r: String)
    ensures
        r@ == boundary_text(message@),
        nul_free(r@),
{
    let n = message.unicode_len();
    let mut i: usize = 0;
    while i < n
        invariant
            n == message@.len(),
            i <= n,
            forall|j: int| 0 <= j < i ==> message@[j] != '\0',
        decreases n - i,
    {
        if message.get_char(i) == '\0' {
            proof {
                assert(message@[i as int] == '\0');
            }
            let text = String::from_str("unreported error: the diagnostic held a NUL character");
            proof {
                reveal_strlit("unreported error: the diagnostic held a NUL character");
                assert(!nul_free(message@));
            }
            return text;
        }
        i = i + 1;
    }
    assert(nul_free(message@));
    String::from_str(message)
}


/// The outcome of an operation with its diagnostic as text.
pub open spec fn text_outcome<T>(r: Result<T, String>) -> Result<T, Seq<char>> {
    match r {
        Ok(v) => Ok(v),
        Err(e) => Err(e@),
    }
}

/// The outcome of a buffer-producing operation, its buffer as a sequence.
pub open spec fn seq_outcome<T>(r: Result<Vec<T>, String>) -> Result<Seq<T>, Seq<char>> {
    match r {
        Ok(v) => Ok(v@),
        Err(e) => Err(e@),
    }
}

/// Outcome of a single-value operation: the value, or a diagnostic with the
/// value set to zero.
pub struct ResultU64 {
    pub value: u64,
    pub error: Option<String>,
}

impl ResultU64 {
    /// Exactly one of value and error is meaningful: on error the value is zero
    /// and the text can be NUL-terminated.
    pub open spec fn wf(&self) -> bool {
        match self.error {
            Some(e) => self.value == 0 && nul_free(e@),
            None => true,
        }
    }

    /// The envelope carries the given outcome.
    pub open spec fn carries(&self, o: Result<u64, Seq<char>>) -> bool {
        match o {
            Ok(v) => self.value == v && self.error is None,
            Err(m) => {
                &&& self.value == 0
                &&& self.error matches Some(e) && e@ == boundary_text(m)
            },
        }
    }

    /// Packs an engine outcome into an envelope.
    pub fn from_result(r: Result<u64, String>) -> (env: ResultU64)
        ensures
            env.wf(),
            env.carries(text_outcome(r)),
    {
        match r {
            Ok(v) => ResultU64 { value: v, error: None },
            Err(e) => ResultU64 { value: 0, error: Some(boundary_message(e.as_str())) },
        }
    }

    /// An envelope for a failure detected before the engine is asked.
    pub fn failure(message: &str) -> (env: ResultU64)
        ensures
            env.wf(),
            env.carries(Err(message@)),
    {
        ResultU64 { value: 0, error: Some(boundary_message(message)) }
    }

    /// True when the operation failed.
    pub fn is_error(&self) -> (r: bool)
        ensures
            r == self.error is Some,
    {
        self.error.is_some()
    }
}

/// Outcome of a variable-length operation: an owned buffer with its length,
/// or a diagnostic with an empty buffer. Dropping it releases both, once.
pub struct ArrayEnvelope<T> {
    pub data: Vec<T>,
    pub len: usize,
    pub error: Option<String>,
}

/// Envelope of cell identifiers.
pub type CellArray = ArrayEnvelope<u64>;

impl<T> ArrayEnvelope<T> {
    /// The length tags the buffer; on error the buffer is empty and the text
    /// can be NUL-terminated.
    pub open spec fn wf(&self) -> bool {
        &&& self.len == self.data@.len()
        &&& match self.error {
            Some(e) => self.len == 0 && nul_free(e@),
            None => true,
        }
    }

    /// The envelope carries the given outcome.
    pub open spec fn carries(&self, o: Result<Seq<T>, Seq<char>>) -> bool {
        match o {
            Ok(v) => self.data@ == v && self.error is None,
            Err(m) => {
                &&& self.data@.len() == 0
                &&& self.error matches Some(e) && e@ == boundary_text(m)
            },
        }
    }

    /// Packs an engine outcome into an envelope, taking over its buffer.
    pub fn from_result(r: Result<Vec<T>, String>) -> (env: Self)
        ensures
            env.wf(),
            env.carries(seq_outcome(r)),
    {
        match r {
            Ok(v) => {
                let len = v.len();
                ArrayEnvelope { data: v, len, error: None }
            },
            Err(e) => ArrayEnvelope {
                data: Vec::new(),
                len: 0,
                error: Some(boundary_message(e.as_str())),
            },
        }
    }

    /// True when the envelope holds items, that is, when its buffer is handed
    /// out as a non-null pointer.
    pub fn has_data(&self) -> (r: bool)
        requires
            self.wf(),
        ensures
            r == (self.len > 0),
            r ==> self.error is None,
    {
        self.len > 0
    }
}

/// An array envelope that failed holds no buffer and no length, and one that
/// succeeded with a nonzero length holds that many items, so that its buffer is
/// handed out as a non-null pointer exactly when its length is nonzero.
pub proof fn lemma_array_envelope_exclusive<T>(env: &ArrayEnvelope<T>)
    requires
        env.wf(),
    ensures
        env.error is Some ==> env.len == 0 && env.data@.len() == 0,
        env.error is None && env.len > 0 ==> env.data@.len() == env.len,
        env.data@.len() > 0 <==> env.len > 0,
{
}

/// Packs the outcome of a cell-list operation into a cell envelope.
pub fn cell_vec_result_to_c(result: Result<Vec<u64>, String>) -> (env: CellArray)
    ensures
        env.wf(),
        env.carries(seq_outcome(result)),
        env.error is Some ==> env.len == 0 && env.data@.len() == 0,
        env.error is None ==> env.len == env.data@.len(),
{
    ArrayEnvelope::from_result(result)
}

} // verus!
