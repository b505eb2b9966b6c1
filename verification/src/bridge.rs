//! The cross-module bridge to the hub.
//!
//! This is the one point where the module's state becomes visible to, or
//! queries, the separately-owned hub module.  The hub's own logic is not
//! modelled — only the call's request/response shape: a call can succeed,
//! fail outright, or come back in a shape this module cannot decode, and
//! [`Bridge`] holds exactly that, plus the data a successful query returns.
//! Which hub instance is addressed is an external configuration concern with
//! no default, left to the embedding.

use crate::addressing::{Address, AddressV};
use crate::errors::{BridgeError, PaperzError};
use crate::records::SensemakerEntry;
use vstd::prelude::*;

verus! {

/// Mathematical model of a [`Bridge`].
#[verifier::ext_equal]
pub struct BridgeV {
    /// While set, every cross-module call fails.
    pub fail_calls: bool,
    /// While set, a query call comes back in an undecodable shape.
    pub unexpected_response: bool,
    /// Content hashes the hub was successfully notified of, in order.
    pub notified: Seq<AddressV>,
    /// What a successful state-machine-data query returns.
    pub sm_data: Seq<(AddressV, Seq<char>)>,
}

impl BridgeV {
    pub open spec fn empty() -> BridgeV {
        BridgeV {
            fail_calls: false,
            unexpected_response: false,
            notified: Seq::empty(),
            sm_data: Seq::empty(),
        }
    }

    pub open spec fn with_fail_calls(self, fail: bool) -> BridgeV {
        BridgeV { fail_calls: fail, ..self }
    }

    pub open spec fn with_unexpected_response(self, unexpected: bool) -> BridgeV {
        BridgeV { unexpected_response: unexpected, ..self }
    }

    pub open spec fn with_notified(self, a: AddressV) -> BridgeV {
        BridgeV { notified: self.notified.push(a), ..self }
    }

    pub open spec fn with_sm_data(self, data: Seq<(AddressV, Seq<char>)>) -> BridgeV {
        BridgeV { sm_data: data, ..self }
    }
}

pub open spec fn sm_pairs_view(v: Seq<(Address, SensemakerEntry)>) -> Seq<(AddressV, Seq<char>)> {
    v.map_values(|p: (Address, SensemakerEntry)| (p.0@, p.1@))
}

/// The module's view of the call boundary to the hub, with failure injection
/// for what the transport and the hub can do: refuse the call, or answer in a
/// shape this module cannot decode.
pub struct Bridge {
    fail_calls: bool,
    unexpected_response: bool,
    notified: Vec<Address>,
    sm_data: Vec<(Address, SensemakerEntry)>,
}

impl View for Bridge {
    type V = BridgeV;

    closed spec fn view(&self) -> BridgeV {
        BridgeV {
            fail_calls: self.fail_calls,
            unexpected_response: self.unexpected_response,
            notified: self.notified@.map_values(|a: Address| a@),
            sm_data: sm_pairs_view(self.sm_data@),
        }
    }
}

impl Bridge {
    /// A bridge whose calls succeed and whose queries answer with no data.
    pub fn new() -> (b: Bridge)
        ensures
            b@ == BridgeV::empty(),
    {
        let b = Bridge {
            fail_calls: false,
            unexpected_response: false,
            notified: Vec::new(),
            sm_data: Vec::new(),
        };
        proof {
            assert(b@ =~= BridgeV::empty());
        }
        b
    }

    /// Injects (or clears) call failure: while set, every cross-module call
    /// fails.
    pub fn set_fail_calls(&mut self, fail: bool)
        ensures
            final(self)@ == old(self)@.with_fail_calls(fail),
    {
        self.fail_calls = fail;
        proof {
            assert(self@ =~= old(self)@.with_fail_calls(fail));
        }
    }

    /// Injects (or clears) an undecodable query response shape.
    pub fn set_unexpected_response(&mut self, unexpected: bool)
        ensures
            final(self)@ == old(self)@.with_unexpected_response(unexpected),
    {
        self.unexpected_response = unexpected;
        proof {
            assert(self@ =~= old(self)@.with_unexpected_response(unexpected));
        }
    }

    /// Sets what a successful state-machine-data query returns.
    pub fn set_state_machine_data(&mut self, data: Vec<(Address, SensemakerEntry)>)
        ensures
            final(self)@ == old(self)@.with_sm_data(sm_pairs_view(data@)),
    {
        self.sm_data = data;
        proof {
            assert(self@ =~= old(self)@.with_sm_data(sm_pairs_view(self.sm_data@)));
        }
    }

    /// One-way call handing a newly created annotation's content hash to the
    /// hub.  Only success or failure of the call itself is interpreted; the
    /// response body is not.
    pub fn notify_annotation_created(&mut self, annotation_hash: Address) -> (r: Result<
        (),
        PaperzError,
    >)
        ensures
            old(self)@.fail_calls ==> r == Err::<(), PaperzError>(
                PaperzError::BridgeError(BridgeError::CallFailed),
            ) && final(self)@ == old(self)@,
            !old(self)@.fail_calls ==> r == Ok::<(), PaperzError>(()) && final(self)@ == old(
                self,
            )@.with_notified(annotation_hash@),
    {
        if self.fail_calls {
            return Err(PaperzError::BridgeError(BridgeError::CallFailed));
        }
        let ghost av = annotation_hash@;
        self.notified.push(annotation_hash);
        proof {
            assert(self@.notified =~= old(self)@.notified.push(av));
            assert(self@ =~= old(self)@.with_notified(av));
        }
        Ok(())
    }
}

/// Proxies a generic state-machine-data query for `target_eh` (optionally
/// narrowed by a label) to the hub and decodes its typed response.  The
/// request is forwarded opaquely — the hub alone gives it meaning — so the
/// contract fixes the result by the bridge's state alone: the hub's data on
/// success, a bridge error when the call fails, and — the chosen fallback for
/// a response this module cannot decode — an unexpected-response error.
#[allow(unused_variables)]
pub fn get_state_machine_data(
    bridge: &Bridge,
    target_eh: &Address,
    opt_label: Option<String>,
) -> (r: Result<Vec<(Address, SensemakerEntry)>, PaperzError>)
    ensures
        bridge@.fail_calls ==> r == Err::<Vec<(Address, SensemakerEntry)>, PaperzError>(
            PaperzError::BridgeError(BridgeError::CallFailed),
        ),
        !bridge@.fail_calls && bridge@.unexpected_response ==> r == Err::<
            Vec<(Address, SensemakerEntry)>,
            PaperzError,
        >(PaperzError::BridgeError(BridgeError::UnexpectedResponse)),
        !bridge@.fail_calls && !bridge@.unexpected_response ==> (r matches Ok(data)
            && sm_pairs_view(data@) == bridge@.sm_data),
{
    if bridge.fail_calls {
        return Err(PaperzError::BridgeError(BridgeError::CallFailed));
    }
    if bridge.unexpected_response {
        return Err(PaperzError::BridgeError(BridgeError::UnexpectedResponse));
    }
    let data_len = bridge.sm_data.len();
    let mut out: Vec<(Address, SensemakerEntry)> = Vec::new();
    let mut i: usize = 0;
    while i < data_len
        invariant
            0 <= i <= data_len,
            data_len == bridge.sm_data.len(),
            sm_pairs_view(out@) =~= bridge@.sm_data.take(i as int),
        decreases data_len - i,
    {
        let pair = &bridge.sm_data[i];
        let ghost prev = sm_pairs_view(out@);
        out.push((pair.0.duplicate(), pair.1.duplicate()));
        proof {
            assert(sm_pairs_view(out@) =~= prev.push((pair.0@, pair.1@)));
            assert(bridge@.sm_data[i as int] == (pair.0@, pair.1@));
            assert(bridge@.sm_data.take(i + 1) =~= bridge@.sm_data.take(i as int).push(
                bridge@.sm_data[i as int],
            ));
            assert(sm_pairs_view(out@) =~= bridge@.sm_data.take(i + 1));
        }
        i = i + 1;
    }
    proof {
        assert(bridge@.sm_data.take(data_len as int) =~= bridge@.sm_data);
    }
    Ok(out)
}

} // verus!
