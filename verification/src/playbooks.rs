//! The playbooks endpoint: verified request planning.
//!
//! A playbook is the remote destination scope of a synchronization session.
//! This module builds the endpoint paths and methods of the playbook
//! actions as plain values; performing the HTTP exchange is the transport
//! collaborator's job and stays outside the library.

use vstd::prelude::*;
use vstd::string::*;

verus! {

/// The decimal digits of `n`, most significant first.
pub open spec fn dec_digits(n: nat) -> Seq<char>
    decreases n,
{
    if n < 10 {
        seq![digit_char(n)]
    } else {
        dec_digits(n / 10).push(digit_char(n % 10))
    }
}

/// The character of one decimal digit.
pub open spec fn digit_char(d: nat) -> char
    recommends
        d < 10,
{
    if d == 0 {
        '0'
    } else if d == 1 {
        '1'
    } else if d == 2 {
        '2'
    } else if d == 3 {
        '3'
    } else if d == 4 {
        '4'
    } else if d == 5 {
        '5'
    } else if d == 6 {
        '6'
    } else if d == 7 {
        '7'
    } else if d == 8 {
        '8'
    } else {
        '9'
    }
}

/// The one-character string of a decimal digit.
fn digit_str(d: u64) -> (r: &'static str)
    requires
        d < 10,
    ensures
        r@ == seq![digit_char(d as nat)],
{
    proof {
        reveal_strlit("0");
        reveal_strlit("1");
        reveal_strlit("2");
        reveal_strlit("3");
        reveal_strlit("4");
        reveal_strlit("5");
        reveal_strlit("6");
        reveal_strlit("7");
        reveal_strlit("8");
        reveal_strlit("9");
        assert("0"@ =~= seq!['0']);
        assert("1"@ =~= seq!['1']);
        assert("2"@ =~= seq!['2']);
        assert("3"@ =~= seq!['3']);
        assert("4"@ =~= seq!['4']);
        assert("5"@ =~= seq!['5']);
        assert("6"@ =~= seq!['6']);
        assert("7"@ =~= seq!['7']);
        assert("8"@ =~= seq!['8']);
        assert("9"@ =~= seq!['9']);
    }
    match d {
        0 => "0",
        1 => "1",
        2 => "2",
        3 => "3",
        4 => "4",
        5 => "5",
        6 => "6",
        7 => "7",
        8 => "8",
        _ => "9",
    }
}

/// `n` written in decimal.
pub fn decimal_string(n: u64) -> (r: String)
    ensures
        r@ == dec_digits(n as nat),
    decreases n,
{
    if n < 10 {
        String::from_str(digit_str(n))
    } else {
        let s = decimal_string(n / 10);
        proof {
            assert(dec_digits((n / 10) as nat).push(digit_char((n % 10) as nat)) =~= dec_digits(
                (n / 10) as nat,
            ) + seq![digit_char((n % 10) as nat)]);
        }
        s.concat(digit_str(n % 10))
    }
}

/// The HTTP method of a planned endpoint call.
#[derive(Clone, Copy, Debug, PartialEq, Eq, Structural)]
pub enum HttpMethod {
    Get,
    Post,
    Patch,
    Delete,
}

/// A planned endpoint call: the method and the path under the API root.
///
/// The transport collaborator performs the exchange; this value only says
/// what to ask for.
pub struct ApiRequest {
    pub method: HttpMethod,
    pub path: String,
}

/// The endpoint path of one playbook.
pub open spec fn playbook_path(id: nat) -> Seq<char> {
    "/playbooks/"@ + dec_digits(id)
}

/// The information needed to create a playbook.
pub struct PlaybookPayload {
    /// The title of the playbook
    pub title: String,
    /// The description of the playbook
    pub description: String,
    /// The lead character url of the playbook
    pub lead: String,
}

/// A planned endpoint call that carries a playbook payload as its body.
pub struct PayloadRequest {
    pub request: ApiRequest,
    pub body: PlaybookPayload,
}

/// The playbooks service: plans calls against the playbooks endpoint of the
/// remote API.
pub struct Playbooks {}

impl Playbooks {
    /// Plans the listing of the playbooks in the current account.
    pub fn list(&self) -> (r: ApiRequest)
        ensures
            r.method is Get,
            r.path@ == "/playbooks"@,
    {
        ApiRequest { method: HttpMethod::Get, path: String::from_str("/playbooks") }
    }

    /// Plans the creation of a playbook in the account.
    ///
    /// `payload`: the `PlaybookPayload` with the information needed to
    /// create the playbook
    pub fn create(&self, payload: PlaybookPayload) -> (r: PayloadRequest)
        ensures
            r.request.method is Post,
            r.request.path@ == "/playbooks"@,
            r.body == payload,
    {
        PayloadRequest {
            request: ApiRequest { method: HttpMethod::Post, path: String::from_str("/playbooks") },
            body: payload,
        }
    }

    /// Plans the retrieval of a playbook.
    ///
    /// `playbook_id`: The ID of the playbook we want to retrieve
    pub fn get(&self, playbook_id: u64) -> (r: ApiRequest)
        ensures
            r.method is Get,
            r.path@ == playbook_path(playbook_id as nat),
    {
        ApiRequest {
            method: HttpMethod::Get,
            path: String::from_str("/playbooks/").concat(decimal_string(playbook_id).as_str()),
        }
    }

    /// Plans the update of a playbook.
    ///
    /// `playbook_id`: The playbook id
    /// `payload`: The `PlaybookPayload` with the information needed to update
    pub fn update(&self, playbook_id: u64, payload: PlaybookPayload) -> (r: PayloadRequest)
        ensures
            r.request.method is Patch,
            r.request.path@ == playbook_path(playbook_id as nat),
            r.body == payload,
    {
        PayloadRequest {
            request: ApiRequest {
                method: HttpMethod::Patch,
                path: String::from_str("/playbooks/").concat(decimal_string(playbook_id).as_str()),
            },
            body: payload,
        }
    }

    /// Plans the deletion of a playbook.
    ///
    /// `playbook_id`: The playbook id
    pub fn delete(&self, playbook_id: u64) -> (r: ApiRequest)
        ensures
            r.method is Delete,
            r.path@ == playbook_path(playbook_id as nat),
    {
        ApiRequest {
            method: HttpMethod::Delete,
            path: String::from_str("/playbooks/").concat(decimal_string(playbook_id).as_str()),
        }
    }

    /// Retrieve the event streams of playbook
    ///
    /// `playbook_id`: The playbook id
    pub fn events(&self, _playbook_id: u64) -> (r: String)
        ensures
            r@ == "event stream (JSON)"@,
    {
        String::from_str("event stream (JSON)")
    }

    /// Plans the start of a playbook.
    ///
    /// `playbook_id`: The playbook id
    pub fn start(&self, playbook_id: u64) -> (r: ApiRequest)
        ensures
            r.method is Post,
            r.path@ == playbook_path(playbook_id as nat) + "/actions/start"@,
    {
        let path = String::from_str("/playbooks/").concat(decimal_string(playbook_id).as_str());
        proof {
            assert((playbook_path(playbook_id as nat) + "/actions/start"@) =~= ("/playbooks/"@
                + dec_digits(playbook_id as nat)) + "/actions/start"@);
        }
        ApiRequest { method: HttpMethod::Post, path: path.concat("/actions/start") }
    }

    /// Plans the stop of a playbook.
    ///
    /// `playbook_id`: The playbook id
    pub fn stop(&self, playbook_id: u64) -> (r: ApiRequest)
        ensures
            r.method is Post,
            r.path@ == playbook_path(playbook_id as nat) + "/actions/stop"@,
    {
        let path = String::from_str("/playbooks/").concat(decimal_string(playbook_id).as_str());
        proof {
            assert((playbook_path(playbook_id as nat) + "/actions/stop"@) =~= ("/playbooks/"@
                + dec_digits(playbook_id as nat)) + "/actions/stop"@);
        }
        ApiRequest { method: HttpMethod::Post, path: path.concat("/actions/stop") }
    }
}

} // verus!
