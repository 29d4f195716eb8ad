//! Recognising the kind of a flatbuffer message from the file identifier that it carries.
use vstd::prelude::*;
use vstd::string::StringSliceAdditionalSpecFns;

verus! {

broadcast use vstd::string::group_string_axioms;

/// Whether a flatbuffer without a size prefix carries the four-byte file identifier `id`: the
/// identifier follows the four-byte root offset.
pub open spec fn has_identifier(data: Seq<u8>, id: Seq<u8>) -> bool {
    data.subrange(4, 8) == id
}

/// The file identifier of a digitiser analog trace message, first version: `dat1`.
pub open spec fn trace_v1_identifier() -> Seq<u8> {
    seq![100u8, 97u8, 116u8, 49u8]
}

/// The file identifier of a digitiser analog trace message, second version: `dat2`.
pub open spec fn trace_v2_identifier() -> Seq<u8> {
    seq![100u8, 97u8, 116u8, 50u8]
}

/// The file identifier of a run start command: `pl72`.
pub open spec fn run_start_identifier() -> Seq<u8> {
    seq![112u8, 108u8, 55u8, 50u8]
}

/// The file identifier of a run stop command: `6s4t`.
pub open spec fn run_stop_identifier() -> Seq<u8> {
    seq![54u8, 115u8, 52u8, 116u8]
}

/// A payload carries at most one of the message identifiers: no message is of two kinds.
pub proof fn law_identifiers_exclusive(data: Seq<u8>)
    ensures
        !(has_identifier(data, trace_v1_identifier()) && has_identifier(data, trace_v2_identifier())),
        !(has_identifier(data, trace_v1_identifier()) && has_identifier(data, run_start_identifier())),
        !(has_identifier(data, trace_v1_identifier()) && has_identifier(data, run_stop_identifier())),
        !(has_identifier(data, trace_v2_identifier()) && has_identifier(data, run_start_identifier())),
        !(has_identifier(data, trace_v2_identifier()) && has_identifier(data, run_stop_identifier())),
        !(has_identifier(data, run_start_identifier()) && has_identifier(data, run_stop_identifier())),
{
    assert(trace_v1_identifier()[3] != trace_v2_identifier()[3]);
    assert(trace_v1_identifier()[0] != run_start_identifier()[0]);
    assert(trace_v1_identifier()[0] != run_stop_identifier()[0]);
    assert(trace_v2_identifier()[0] != run_start_identifier()[0]);
    assert(trace_v2_identifier()[0] != run_stop_identifier()[0]);
    assert(run_start_identifier()[0] != run_stop_identifier()[0]);
}

/// Whether a flatbuffer without a size prefix carries a given file identifier
/// (`flatbuffers::buffer_has_identifier`): the four bytes after the root offset equal the
/// identifier's bytes. The buffer must hold the root offset and the identifier.
#[verifier::external_body]
fn buffer_has_identifier(data: &[u8], ident: &str) -> (res: bool)
    requires
        data@.len() >= 8,
        ident.spec_bytes().len() == 4,
    ensures
        res == (data@.subrange(4, 8) == ident.spec_bytes()),
{
    flatbuffers::buffer_has_identifier(data, ident, false)
}

/// Whether a payload is a digitiser analog trace message of the first version.
pub fn is_trace_v1(payload: &[u8]) -> (res: bool)
    requires
        payload@.len() >= 8,
    ensures
        res == has_identifier(payload@, trace_v1_identifier()),
{
    proof {
        reveal_strlit("dat1");
        assert(vstd::string::is_ascii("dat1"));
        assert("dat1".spec_bytes() =~= trace_v1_identifier());
    }
    buffer_has_identifier(payload, "dat1")
}

/// Whether a payload is a digitiser analog trace message of the second version.
pub fn is_trace_v2(payload: &[u8]) -> (res: bool)
    requires
        payload@.len() >= 8,
    ensures
        res == has_identifier(payload@, trace_v2_identifier()),
{
    proof {
        reveal_strlit("dat2");
        assert(vstd::string::is_ascii("dat2"));
        assert("dat2".spec_bytes() =~= trace_v2_identifier());
    }
    buffer_has_identifier(payload, "dat2")
}

/// Whether a payload is a run start command.
pub fn is_run_start(payload: &[u8]) -> (res: bool)
    requires
        payload@.len() >= 8,
    ensures
        res == has_identifier(payload@, run_start_identifier()),
{
    proof {
        reveal_strlit("pl72");
        assert(vstd::string::is_ascii("pl72"));
        assert("pl72".spec_bytes() =~= run_start_identifier());
    }
    buffer_has_identifier(payload, "pl72")
}

/// Whether a payload is a run stop command.
pub fn is_run_stop(payload: &[u8]) -> (res: bool)
    requires
        payload@.len() >= 8,
    ensures
        res == has_identifier(payload@, run_stop_identifier()),
{
    proof {
        reveal_strlit("6s4t");
        assert(vstd::string::is_ascii("6s4t"));
        assert("6s4t".spec_bytes() =~= run_stop_identifier());
    }
    buffer_has_identifier(payload, "6s4t")
}

} // verus!
