//! The launcher's request in the delegate's own command-line grammar.

use vstd::prelude::*;
use crate::request::{LaunchRequest, LaunchRequestView};

verus! {

/// The arguments that ask for a bind address: the flag and the address, or
/// nothing at all where no address was given.
pub open spec fn bind_arguments(bind_address: Option<Seq<char>>) -> Seq<Seq<char>> {
    match bind_address {
        Some(address) => seq!["-b"@, address],
        None => Seq::empty(),
    }
}

/// The argument that asks for debug mode: the bare flag, or nothing.
pub open spec fn debug_arguments(debug: bool) -> Seq<Seq<char>> {
    if debug {
        seq!["-d"@]
    } else {
        Seq::empty()
    }
}

/// The delegate's argument vector for `request`: local port, remote port and
/// remote host, each behind its flag, then the bind address and the debug
/// flag where they were asked for.
pub open spec fn delegate_arguments(request: LaunchRequestView) -> Seq<Seq<char>> {
    seq!["-l"@, request.local_port, "-r"@, request.remote_port, "-h"@, request.remote_host]
        + bind_arguments(request.bind_address) + debug_arguments(request.debug)
}

/// Builds the delegate's argument vector.
pub fn translate(request: &LaunchRequest) -> (arguments: Vec<String>)
    ensures
        arguments.deep_view() == delegate_arguments(request@),
{
    let mut arguments: Vec<String> = Vec::new();
    arguments.push("-l".to_owned());
    arguments.push(request.local_port.clone());
    arguments.push("-r".to_owned());
    arguments.push(request.remote_port.clone());
    arguments.push("-h".to_owned());
    arguments.push(request.remote_host.clone());
    assert(arguments.deep_view() == seq![
        "-l"@,
        request.local_port@,
        "-r"@,
        request.remote_port@,
        "-h"@,
        request.remote_host@,
    ]);
    let ghost required = arguments.deep_view();
    match &request.bind_address {
        Some(address) => {
            arguments.push("-b".to_owned());
            arguments.push(address.clone());
        },
        None => {},
    }
    assert(arguments.deep_view() == required + bind_arguments(request@.bind_address));
    let ghost bound = arguments.deep_view();
    if request.debug {
        arguments.push("-d".to_owned());
    }
    assert(arguments.deep_view() == bound + debug_arguments(request.debug));
    arguments
}

/// Without a bind address the argument vector holds no bind flag and no
/// empty argument, as long as none of the three required values is itself
/// empty or the text of the bind flag.
pub proof fn lemma_bind_omitted(request: LaunchRequestView)
    requires
        request.bind_address is None,
        request.local_port != "-b"@ && request.local_port.len() > 0,
        request.remote_port != "-b"@ && request.remote_port.len() > 0,
        request.remote_host != "-b"@ && request.remote_host.len() > 0,
    ensures
        !delegate_arguments(request).contains("-b"@),
        !delegate_arguments(request).contains(Seq::<char>::empty()),
{
    reveal_strlit("-l");
    reveal_strlit("-r");
    reveal_strlit("-h");
    reveal_strlit("-b");
    reveal_strlit("-d");
    let arguments = delegate_arguments(request);
    assert forall|i: int| 0 <= i < arguments.len() implies arguments[i] != "-b"@ && arguments[i].len() > 0 by {
        if i == 0 {
            assert(arguments[i] == "-l"@);
            assert("-l"@[1] != "-b"@[1]);
        } else if i == 2 {
            assert(arguments[i] == "-r"@);
            assert("-r"@[1] != "-b"@[1]);
        } else if i == 4 {
            assert(arguments[i] == "-h"@);
            assert("-h"@[1] != "-b"@[1]);
        } else if i == 6 {
            assert(arguments[i] == "-d"@);
            assert("-d"@[1] != "-b"@[1]);
        }
    }
}

/// With a bind address the argument vector holds the bind flag exactly once,
/// with the address right behind it, as long as neither the address nor any
/// of the three required values is itself the text of the bind flag.
pub proof fn lemma_bind_present(request: LaunchRequestView)
    requires
        request.bind_address is Some,
        request.bind_address->0 != "-b"@,
        request.local_port != "-b"@,
        request.remote_port != "-b"@,
        request.remote_host != "-b"@,
    ensures
        delegate_arguments(request).len() >= 8,
        delegate_arguments(request)[6] == "-b"@,
        delegate_arguments(request)[7] == request.bind_address->0,
        forall|i: int| 0 <= i < delegate_arguments(request).len() && delegate_arguments(request)[i] == "-b"@ ==> i == 6,
{
    reveal_strlit("-l");
    reveal_strlit("-r");
    reveal_strlit("-h");
    reveal_strlit("-b");
    reveal_strlit("-d");
    let arguments = delegate_arguments(request);
    assert forall|i: int| 0 <= i < arguments.len() && arguments[i] == "-b"@ implies i == 6 by {
        if i == 0 {
            assert("-l"@[1] != "-b"@[1]);
        } else if i == 2 {
            assert("-r"@[1] != "-b"@[1]);
        } else if i == 4 {
            assert("-h"@[1] != "-b"@[1]);
        } else if i == 8 {
            assert(arguments[i] == "-d"@);
            assert("-d"@[1] != "-b"@[1]);
        }
    }
}

} // verus!
