//! Node configuration: the protocol name and the identifiers derived from it.
use vstd::prelude::*;
use vstd::slice::slice_to_vec;
use vstd::string::StringSliceAdditionalSpecFns;
use vstd::utf8::encode_utf8;

verus! {

/// Whether `c` is alphanumeric in the sense of `char::is_alphanumeric`:
/// alphabetic or numeric by the Unicode tables of the standard library.
pub uninterp spec fn char_is_alphanumeric(c: char) -> bool;

/// Calls `char::is_alphanumeric`; its result is named by
/// [`char_is_alphanumeric`], a function of the character alone.
#[verifier::external_body]
fn is_alphanumeric(c: char) -> (r: bool)
    ensures
        r == char_is_alphanumeric(c),
{
    c.is_alphanumeric()
}

/// Calls `String::push`, which appends one character.
#[verifier::external_body]
fn push_char(s: &mut String, c: char)
    ensures
        final(s)@ == old(s)@.push(c),
{
    s.push(c)
}

/// The character that stands for `c` in a service name: `c` itself when it is
/// alphanumeric or `-`, else `-`.
pub open spec fn service_char(c: char) -> char {
    if char_is_alphanumeric(c) || c == '-' {
        c
    } else {
        '-'
    }
}

/// The service name derived from a protocol name, character by character.
pub open spec fn service_name_of(protocol: Seq<char>) -> Seq<char> {
    protocol.map_values(|c: char| service_char(c))
}

/// Settings of a node.
pub struct NodeSetup {
    /// Protocol name. Used as the ALPN identifier and mDNS service name.
    pub protocol: String,
}

impl Default for NodeSetup {
    /// The setup with protocol name `distributed-channel-1`.
    fn default() -> (s: Self)
        ensures
            s.protocol@ == "distributed-channel-1"@,
    {
        NodeSetup { protocol: String::from_str("distributed-channel-1") }
    }
}

impl NodeSetup {
    /// The ALPN identifier: the UTF-8 bytes of the protocol name.
    pub fn alpn(&self) -> (r: Vec<u8>)
        ensures
            r@ == encode_utf8(self.protocol@),
    {
        let s: &str = self.protocol.as_str();
        slice_to_vec(s.as_bytes())
    }

    /// The mDNS service name: the protocol name with every character that is
    /// neither alphanumeric nor `-` replaced by `-`.
    pub fn service_name(&self) -> (r: String)
        ensures
            r@ == service_name_of(self.protocol@),
            r@.len() == self.protocol@.len(),
            forall|i: int|
                0 <= i < r@.len() ==> #[trigger] r@[i] == (if char_is_alphanumeric(self.protocol@[i])
                    || self.protocol@[i] == '-' {
                    self.protocol@[i]
                } else {
                    '-'
                }),
    {
        let mut out = String::new();
        let s: &str = self.protocol.as_str();
        let ghost chars = s@;
        for c in it: s.chars()
            invariant
                chars == s@,
                it.seq() == chars,
                out@ =~= service_name_of(chars.take(it.index() as int)),
        {
            let keep = is_alphanumeric(c) || c == '-';
            if keep {
                push_char(&mut out, c);
            } else {
                push_char(&mut out, '-');
            }
            assert(service_name_of(chars.take(it.index() + 1)) =~= service_name_of(
                chars.take(it.index() as int),
            ).push(service_char(c)));
        }
        assert(chars.take(chars.len() as int) =~= chars);
        out
    }
}

/// A service name keeps, at its position, every character of the protocol
/// name that is alphanumeric or `-`, and has `-` in place of every other
/// character.
pub proof fn lemma_service_name_law(protocol: Seq<char>)
    ensures
        service_name_of(protocol).len() == protocol.len(),
        forall|i: int|
            0 <= i < protocol.len() && (char_is_alphanumeric(protocol[i]) || protocol[i] == '-')
                ==> #[trigger] service_name_of(protocol)[i] == protocol[i],
        forall|i: int|
            0 <= i < protocol.len() && !char_is_alphanumeric(protocol[i]) && protocol[i] != '-'
                ==> #[trigger] service_name_of(protocol)[i] == '-',
        forall|a: Seq<char>, b: Seq<char>|
            #[trigger] service_name_of(a + b) == service_name_of(a) + service_name_of(b),
{
    assert forall|a: Seq<char>, b: Seq<char>|
        #[trigger] service_name_of(a + b) == service_name_of(a) + service_name_of(b) by {
        assert(service_name_of(a + b) =~= service_name_of(a) + service_name_of(b));
    }
}

/// A service name keeps the length of the protocol name, holds only
/// alphanumeric characters and `-`, and is its own service name.
pub proof fn lemma_service_name_shape(protocol: Seq<char>)
    ensures
        service_name_of(protocol).len() == protocol.len(),
        forall|i: int|
            0 <= i < protocol.len() ==> {
                let c = #[trigger] service_name_of(protocol)[i];
                char_is_alphanumeric(c) || c == '-'
            },
        service_name_of(service_name_of(protocol)) == service_name_of(protocol),
{
    assert(service_name_of(service_name_of(protocol)) =~= service_name_of(protocol));
}

} // verus!
