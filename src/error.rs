use vstd::prelude::*;
use vstd::string::StringExecFns;
use vstd::utf8::encode_utf8;
use vstd::std_specs::convert::FromSpec;
use vstd::std_specs::convert::FromSpecImpl;

verus! {

/// The four kinds of failure that a graph-generic operation can report.
#[derive(Clone, Copy, Debug, PartialEq, Eq, Structural)]
pub enum ErrorKind {
    NodeId,
    EdgeId,
    Callback,
    DAGWouldCycle,
}

/// A failure of a graph-generic operation over node identifiers `N`, edge
/// identifiers `E` and errors `C` of a caller-supplied callback.
#[derive(Debug)]
pub enum ErrorEnum<N, E, C> {
    /// A node identifier that does not exist in the graph.
    NodeId(N),
    /// An edge identifier that does not exist in the graph.
    EdgeId(E),
    /// An error produced by a caller-supplied callback.
    Callback(C),
    /// The operation was refused because it would introduce a cycle.
    DAGWouldCycle,
}

pub open spec fn kind_of<N, E, C>(e: ErrorEnum<N, E, C>) -> ErrorKind {
    match e {
        ErrorEnum::NodeId(_) => ErrorKind::NodeId,
        ErrorEnum::EdgeId(_) => ErrorKind::EdgeId,
        ErrorEnum::Callback(_) => ErrorKind::Callback,
        ErrorEnum::DAGWouldCycle => ErrorKind::DAGWouldCycle,
    }
}

/// The fixed text that opens the message of each kind.
pub open spec fn kind_prefix(k: ErrorKind) -> Seq<char> {
    match k {
        ErrorKind::NodeId => "Node index not found in graph: "@,
        ErrorKind::EdgeId => "Node edge not found in graph: "@,
        ErrorKind::Callback => "Callback error: "@,
        ErrorKind::DAGWouldCycle => "The operation would introduce a cycle."@,
    }
}

/// Whether the kind's message goes on with the text of a payload.
pub open spec fn kind_has_payload(k: ErrorKind) -> bool {
    k != ErrorKind::DAGWouldCycle
}

/// The message of kind `k` whose payload renders as `payload`.
pub open spec fn message_of(k: ErrorKind, payload: Seq<char>) -> Seq<char> {
    if kind_has_payload(k) {
        kind_prefix(k) + payload
    } else {
        kind_prefix(k)
    }
}

/// The kind that a message's UTF-8 bytes name by their opening text, if any.
pub open spec fn kind_of_message_bytes(b: Seq<u8>) -> Option<ErrorKind> {
    if encode_utf8(kind_prefix(ErrorKind::NodeId)).is_prefix_of(b) {
        Some(ErrorKind::NodeId)
    } else if encode_utf8(kind_prefix(ErrorKind::EdgeId)).is_prefix_of(b) {
        Some(ErrorKind::EdgeId)
    } else if encode_utf8(kind_prefix(ErrorKind::Callback)).is_prefix_of(b) {
        Some(ErrorKind::Callback)
    } else if encode_utf8(kind_prefix(ErrorKind::DAGWouldCycle)).is_prefix_of(b) {
        Some(ErrorKind::DAGWouldCycle)
    } else {
        None
    }
}

fn kind_prefix_str(k: ErrorKind) -> (r: &'static str)
    ensures
        r@ == kind_prefix(k),
{
    match k {
        ErrorKind::NodeId => "Node index not found in graph: ",
        ErrorKind::EdgeId => "Node edge not found in graph: ",
        ErrorKind::Callback => "Callback error: ",
        ErrorKind::DAGWouldCycle => "The operation would introduce a cycle.",
    }
}

/// Whether `p` opens `b`.
fn bytes_start_with(b: &[u8], p: &[u8]) -> (r: bool)
    ensures
        r == p@.is_prefix_of(b@),
{
    if p.len() > b.len() {
        return false;
    }
    let mut i: usize = 0;
    while i < p.len()
        invariant
            p@.len() <= b@.len(),
            0 <= i <= p@.len(),
            forall|j: int| 0 <= j < i ==> p@[j] == b@[j],
        decreases p@.len() - i,
    {
        if p[i] != b[i] {
            return false;
        }
        i = i + 1;
    }
    proof {
        assert(p@ =~= b@.subrange(0, p@.len() as int));
    }
    true
}

/// Reads the kind of error back from a rendered message, by its opening text.
pub fn parse_kind(message: &str) -> (r: Option<ErrorKind>)
    ensures
        r == kind_of_message_bytes(encode_utf8(message@)),
{
    let b = message.as_bytes();
    if bytes_start_with(b, kind_prefix_str(ErrorKind::NodeId).as_bytes()) {
        Some(ErrorKind::NodeId)
    } else if bytes_start_with(b, kind_prefix_str(ErrorKind::EdgeId).as_bytes()) {
        Some(ErrorKind::EdgeId)
    } else if bytes_start_with(b, kind_prefix_str(ErrorKind::Callback).as_bytes()) {
        Some(ErrorKind::Callback)
    } else if bytes_start_with(b, kind_prefix_str(ErrorKind::DAGWouldCycle).as_bytes()) {
        Some(ErrorKind::DAGWouldCycle)
    } else {
        None
    }
}

impl<N, E, C> ErrorEnum<N, E, C> {
    /// The kind of this error.
    pub fn kind(&self) -> (r: ErrorKind)
        ensures
            r == kind_of(*self),
    {
        match self {
            ErrorEnum::NodeId(_) => ErrorKind::NodeId,
            ErrorEnum::EdgeId(_) => ErrorKind::EdgeId,
            ErrorEnum::Callback(_) => ErrorKind::Callback,
            ErrorEnum::DAGWouldCycle => ErrorKind::DAGWouldCycle,
        }
    }

    /// The message of this error, given the text that its payload renders
    /// as; the text is not used for an error without payload.
    pub fn message_with(&self, payload: &str) -> (r: String)
        ensures
            r@ == message_of(kind_of(*self), payload@),
    {
        let k = self.kind();
        let head = String::from_str(kind_prefix_str(k));
        match k {
            ErrorKind::DAGWouldCycle => head,
            _ => head.concat(payload),
        }
    }
}

/// Relies on the `Debug` impl of `T`, through `format!`: the text that a
/// value renders as. Nothing is assumed of that text.
#[verifier::external_body]
fn debug_text<T: std::fmt::Debug>(x: &T) -> String {
    format!("{:?}", x)
}

impl<N: std::fmt::Debug, E: std::fmt::Debug, C: std::fmt::Debug> ErrorEnum<N, E, C> {
    /// The message of this error, with its payload in its debug form.
    pub fn render(&self) -> (r: String)
        ensures
            exists|t: Seq<char>| r@ == message_of(kind_of(*self), t),
            !kind_has_payload(kind_of(*self)) ==> r@ == kind_prefix(kind_of(*self)),
    {
        let payload = match self {
            ErrorEnum::NodeId(n) => debug_text(n),
            ErrorEnum::EdgeId(e) => debug_text(e),
            ErrorEnum::Callback(c) => debug_text(c),
            ErrorEnum::DAGWouldCycle => String::new(),
        };
        let r = self.message_with(payload.as_str());
        assert(r@ == message_of(kind_of(*self), payload@));
        r
    }
}

impl<N, E, C> From<C> for ErrorEnum<N, E, C> {
    /// Wraps a callback's error.
    fn from(value: C) -> (r: Self)
        ensures
            r == ErrorEnum::<N, E, C>::Callback(value),
    {
        ErrorEnum::Callback(value)
    }
}

impl<N, E, C> FromSpecImpl<C> for ErrorEnum<N, E, C> {
    open spec fn obeys_from_spec() -> bool {
        true
    }

    open spec fn from_spec(v: C) -> Self {
        ErrorEnum::Callback(v)
    }
}

/// Converting a callback's error into the unified error always gives the
/// callback kind, carrying that very value.
pub proof fn lemma_from_callback<N, E, C>(c: C)
    ensures
        kind_of(<ErrorEnum<N, E, C> as FromSpec<C>>::from_spec(c))
            == ErrorKind::Callback,
        <ErrorEnum<N, E, C> as FromSpec<C>>::from_spec(c)
            == ErrorEnum::<N, E, C>::Callback(c),
{
}

proof fn lemma_encode_concat(a: Seq<char>, b: Seq<char>)
    ensures
        encode_utf8(a + b) == encode_utf8(a) + encode_utf8(b),
    decreases a.len(),
{
    if a.len() == 0 {
        assert(a + b =~= b);
        assert(encode_utf8(a) + encode_utf8(b) =~= encode_utf8(b));
    } else {
        assert((a + b).drop_first() =~= a.drop_first() + b);
        lemma_encode_concat(a.drop_first(), b);
        assert(encode_utf8(a + b) =~= encode_utf8(a) + encode_utf8(b));
    }
}

proof fn lemma_ascii_bytes(s: Seq<char>)
    requires
        forall|i: int| 0 <= i < s.len() ==> '\0' <= #[trigger] s[i] <= '\u{7f}',
    ensures
        encode_utf8(s).len() == s.len(),
        forall|i: int| 0 <= i < s.len() ==> encode_utf8(s)[i] == s[i] as u8,
{
    assert(vstd::utf8::is_ascii_chars(s));
    vstd::utf8::is_ascii_chars_encode_utf8(s);
}

proof fn lemma_prefix_bytes(k: ErrorKind)
    ensures
        encode_utf8(kind_prefix(k)).len() == kind_prefix(k).len(),
        kind_prefix(k).len() > 5,
        forall|i: int|
            0 <= i < kind_prefix(k).len() ==> encode_utf8(kind_prefix(k))[i] == kind_prefix(
                k,
            )[i] as u8,
        kind_prefix(k)[0] == match k {
            ErrorKind::NodeId => 'N',
            ErrorKind::EdgeId => 'N',
            ErrorKind::Callback => 'C',
            ErrorKind::DAGWouldCycle => 'T',
        },
        kind_prefix(k)[5] == match k {
            ErrorKind::NodeId => 'i',
            ErrorKind::EdgeId => 'e',
            ErrorKind::Callback => 'a',
            ErrorKind::DAGWouldCycle => 'p',
        },
{
    reveal_strlit("Node index not found in graph: ");
    reveal_strlit("Node edge not found in graph: ");
    reveal_strlit("Callback error: ");
    reveal_strlit("The operation would introduce a cycle.");
    lemma_ascii_bytes(kind_prefix(k));
}

/// Rendering an error and reading its kind back from the message's opening
/// text gives the kind it was rendered from, whatever its payload renders as.
pub proof fn lemma_message_kind_round_trip(k: ErrorKind, payload: Seq<char>)
    ensures
        kind_of_message_bytes(encode_utf8(message_of(k, payload))) == Some(k),
{
    let m = encode_utf8(message_of(k, payload));
    let p = encode_utf8(kind_prefix(k));
    lemma_encode_concat(kind_prefix(k), payload);
    assert(p.is_prefix_of(m)) by {
        assert(m.subrange(0, p.len() as int) =~= p);
    }
    lemma_prefix_bytes(ErrorKind::NodeId);
    lemma_prefix_bytes(ErrorKind::EdgeId);
    lemma_prefix_bytes(ErrorKind::Callback);
    lemma_prefix_bytes(ErrorKind::DAGWouldCycle);
    lemma_prefix_bytes(k);
    assert(m[0] == p[0]);
    assert(m[5] == p[5]);
}

} // verus!
