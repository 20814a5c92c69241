//! The node-status and node-configuration record assemblers.

use vstd::prelude::*;

use crate::error::Error;
use crate::milestone::{milestone_matches, milestone_wire_error, milestone_wire_valid, Milestone};
use crate::wire;

verus! {

/// The protocol parameters in force on the network, copied verbatim from
/// the wire record.
#[derive(PartialEq, Eq, Debug)]
pub struct ProtocolParameters {
    /// The version of the protocol.
    pub protocol_version: u32,
    /// The serialized parameters.
    pub params: Vec<u8>,
}

/// A range of milestone indices over which one public key signs
/// milestones.
#[derive(PartialEq, Eq, Debug)]
pub struct MilestoneKeyRange {
    /// The public key.
    pub public_key: Vec<u8>,
    /// The first milestone index of the range.
    pub start_index: u32,
    /// The last milestone index of the range.
    pub end_index: u32,
}

/// Display metadata of the network's underlying token, every field copied
/// verbatim from the wire record.
#[derive(PartialEq, Eq, Debug)]
pub struct BaseToken {
    /// The name of the token.
    pub name: String,
    /// The ticker symbol of the token.
    pub ticker_symbol: String,
    /// The unit of the token.
    pub unit: String,
    /// The sub-unit of the token.
    pub sub_unit: String,
    /// The number of decimal places of the token.
    pub decimals: u32,
    /// Whether the token uses the metric prefix.
    pub use_metric_prefix: bool,
}

/// A snapshot of the node's configuration.
#[derive(PartialEq, Eq, Debug)]
pub struct NodeConfiguration {
    /// The protocol parameters.
    pub protocol_parameters: ProtocolParameters,
    /// The number of public keys in a milestone.
    pub milestone_public_key_count: u32,
    /// The key ranges used to sign milestones, in wire order.
    pub milestone_key_ranges: Vec<MilestoneKeyRange>,
    /// The base token of the network.
    pub base_token: BaseToken,
}

/// A snapshot of the node's health and indices.
#[derive(PartialEq, Eq, Debug)]
pub struct NodeStatus {
    /// Whether the node is healthy.
    pub is_healthy: bool,
    /// The latest milestone seen by the node.
    pub latest_milestone: Milestone,
    /// The last confirmed milestone.
    pub confirmed_milestone: Milestone,
    /// The pruning index of the node.
    pub pruning_index: u32,
    /// The ledger index of the node.
    pub ledger_index: u32,
}

impl BaseToken {
    /// Converts a wire base-token record, copying every field verbatim.
    /// The conversion is total: the wire record has no optional fields
    /// here.
    pub fn from(value: wire::BaseToken) -> (r: BaseToken)
        ensures
            r.name == value.name,
            r.ticker_symbol == value.ticker_symbol,
            r.unit == value.unit,
            r.sub_unit == value.subunit,
            r.decimals == value.decimals,
            r.use_metric_prefix == value.use_metric_prefix,
    {
        BaseToken {
            name: value.name,
            ticker_symbol: value.ticker_symbol,
            unit: value.unit,
            sub_unit: value.subunit,
            decimals: value.decimals,
            use_metric_prefix: value.use_metric_prefix,
        }
    }
}

/// The wire record carries every nested record the domain configuration
/// requires.
pub open spec fn node_configuration_wire_valid(v: wire::NodeConfiguration) -> bool {
    &&& v.protocol_parameters is Some
    &&& v.base_token is Some
}

/// The first failure the assembler finds in a wire node-configuration
/// record, in declared field order.
pub open spec fn node_configuration_wire_error(v: wire::NodeConfiguration) -> Error {
    if v.protocol_parameters is None {
        Error::MissingField("protocol_parameters")
    } else {
        Error::MissingField("base_token")
    }
}

/// A wire node-configuration record missing a required field fails with
/// [`Error::MissingField`] naming the first absent field in declared order
/// and with no other error kind, whatever the state of the other fields.
pub proof fn lemma_node_configuration_missing_field_takes_precedence(v: wire::NodeConfiguration)
    requires
        v.protocol_parameters is None || v.base_token is None,
    ensures
        !node_configuration_wire_valid(v),
        v.protocol_parameters is None ==> node_configuration_wire_error(v)
            == Error::MissingField("protocol_parameters"),
        v.protocol_parameters is Some && v.base_token is None ==> node_configuration_wire_error(v)
            == Error::MissingField("base_token"),
{
}

/// The domain configuration is the wire record, validated: nested records
/// present, scalars copied verbatim, and the key ranges converted
/// element-wise in wire order.
pub open spec fn node_configuration_matches(d: NodeConfiguration, v: wire::NodeConfiguration)
    -> bool {
    &&& v.protocol_parameters matches Some(p)
        && d.protocol_parameters.protocol_version == p.protocol_version
        && d.protocol_parameters.params@ == p.params@
    &&& d.milestone_public_key_count == v.milestone_public_key_count
    &&& d.milestone_key_ranges@.len() == v.milestone_key_ranges@.len()
    &&& forall|i: int|
        0 <= i < d.milestone_key_ranges@.len() ==> {
            &&& #[trigger] d.milestone_key_ranges@[i].public_key@
                == v.milestone_key_ranges@[i].public_key@
            &&& d.milestone_key_ranges@[i].start_index == v.milestone_key_ranges@[i].start_index
            &&& d.milestone_key_ranges@[i].end_index == v.milestone_key_ranges@[i].end_index
        }
    &&& v.base_token matches Some(b) && {
        &&& d.base_token.name == b.name
        &&& d.base_token.ticker_symbol == b.ticker_symbol
        &&& d.base_token.unit == b.unit
        &&& d.base_token.sub_unit == b.subunit
        &&& d.base_token.decimals == b.decimals
        &&& d.base_token.use_metric_prefix == b.use_metric_prefix
    }
}

impl NodeConfiguration {
    /// Converts a wire node-configuration record into a domain
    /// [`NodeConfiguration`].
    ///
    /// The protocol parameters and the base token are required: an absent
    /// record fails with [`Error::MissingField`] naming it before any
    /// transformation is attempted, the protocol parameters checked first.
    /// The key ranges are converted element-wise in wire order.
    pub fn try_from(value: wire::NodeConfiguration) -> (r: Result<NodeConfiguration, Error>)
        ensures
            node_configuration_wire_valid(value) ==> (r matches Ok(d)
                && node_configuration_matches(d, value)),
            !node_configuration_wire_valid(value) ==> (r matches Err(e) && e
                == node_configuration_wire_error(value)),
    {
        let (raw_parameters, raw_base_token) = match (value.protocol_parameters, value.base_token) {
            (None, _) => {
                return Err(Error::MissingField("protocol_parameters"));
            },
            (_, None) => {
                return Err(Error::MissingField("base_token"));
            },
            (Some(p), Some(b)) => (p, b),
        };
        let protocol_parameters = ProtocolParameters {
            protocol_version: raw_parameters.protocol_version,
            params: raw_parameters.params,
        };

        let n = value.milestone_key_ranges.len();
        let mut milestone_key_ranges: Vec<MilestoneKeyRange> = Vec::new();
        let mut i: usize = 0;
        while i < n
            invariant
                n == value.milestone_key_ranges@.len(),
                i <= n,
                milestone_key_ranges@.len() == i,
                forall|j: int|
                    0 <= j < i ==> {
                        &&& #[trigger] milestone_key_ranges@[j].public_key@
                            == value.milestone_key_ranges@[j].public_key@
                        &&& milestone_key_ranges@[j].start_index
                            == value.milestone_key_ranges@[j].start_index
                        &&& milestone_key_ranges@[j].end_index
                            == value.milestone_key_ranges@[j].end_index
                    },
            decreases n - i,
        {
            let range = &value.milestone_key_ranges[i];
            let public_key = range.public_key.clone();
            assert(public_key@ =~= range.public_key@);
            milestone_key_ranges.push(
                MilestoneKeyRange {
                    public_key,
                    start_index: range.start_index,
                    end_index: range.end_index,
                },
            );
            i += 1;
        }

        let base_token = BaseToken::from(raw_base_token);

        Ok(
            NodeConfiguration {
                protocol_parameters,
                milestone_public_key_count: value.milestone_public_key_count,
                milestone_key_ranges,
                base_token,
            },
        )
    }
}

/// The wire record carries every nested record the domain status requires,
/// each nested milestone itself convertible.
pub open spec fn node_status_wire_valid(v: wire::NodeStatus) -> bool {
    &&& v.latest_milestone matches Some(l) && milestone_wire_valid(l)
    &&& v.confirmed_milestone matches Some(c) && milestone_wire_valid(c)
}

/// The first failure the assembler finds in a wire node-status record. An
/// absent required record is reported before any transformation is
/// attempted, whatever the state of the other fields; then each present
/// milestone is converted, the latest one first, and the milestone
/// assembler's first failure propagates verbatim.
pub open spec fn node_status_wire_error(v: wire::NodeStatus) -> Error {
    if v.latest_milestone is None {
        Error::MissingField("latest_milestone")
    } else if v.confirmed_milestone is None {
        Error::MissingField("confirmed_milestone")
    } else if !milestone_wire_valid(v.latest_milestone->Some_0) {
        milestone_wire_error(v.latest_milestone->Some_0)
    } else {
        milestone_wire_error(v.confirmed_milestone->Some_0)
    }
}

/// A wire node-status record missing a required record fails with
/// [`Error::MissingField`] naming the first absent record in declared
/// order and with no other error kind, whatever the state of the other
/// fields.
pub proof fn lemma_node_status_missing_field_takes_precedence(v: wire::NodeStatus)
    requires
        v.latest_milestone is None || v.confirmed_milestone is None,
    ensures
        !node_status_wire_valid(v),
        v.latest_milestone is None ==> node_status_wire_error(v) == Error::MissingField(
            "latest_milestone",
        ),
        v.latest_milestone is Some && v.confirmed_milestone is None ==> node_status_wire_error(v)
            == Error::MissingField("confirmed_milestone"),
{
}

/// The domain status is the wire record, validated: nested milestones
/// present and converted, scalars copied verbatim.
pub open spec fn node_status_matches(d: NodeStatus, v: wire::NodeStatus) -> bool {
    &&& d.is_healthy == v.is_healthy
    &&& v.latest_milestone matches Some(l) && milestone_matches(d.latest_milestone, l)
    &&& v.confirmed_milestone matches Some(c) && milestone_matches(d.confirmed_milestone, c)
    &&& d.pruning_index == v.pruning_index
    &&& d.ledger_index == v.ledger_index
}

impl NodeStatus {
    /// Converts a wire node-status record into a domain [`NodeStatus`].
    ///
    /// The latest and confirmed milestones are required: an absent record
    /// fails with [`Error::MissingField`] naming it before any
    /// transformation is attempted, the latest milestone checked first.
    /// Each present record is then converted by the milestone assembler,
    /// whose first failure propagates verbatim.
    pub fn try_from(value: wire::NodeStatus) -> (r: Result<NodeStatus, Error>)
        ensures
            node_status_wire_valid(value) ==> (r matches Ok(d) && node_status_matches(d, value)),
            !node_status_wire_valid(value) ==> (r matches Err(e) && e == node_status_wire_error(
                value,
            )),
    {
        let (raw_latest, raw_confirmed) = match (value.latest_milestone, value.confirmed_milestone) {
            (None, _) => {
                return Err(Error::MissingField("latest_milestone"));
            },
            (_, None) => {
                return Err(Error::MissingField("confirmed_milestone"));
            },
            (Some(l), Some(c)) => (l, c),
        };
        let latest_milestone = Milestone::try_from(raw_latest)?;
        let confirmed_milestone = Milestone::try_from(raw_confirmed)?;
        Ok(
            NodeStatus {
                is_healthy: value.is_healthy,
                latest_milestone,
                confirmed_milestone,
                pruning_index: value.pruning_index,
                ledger_index: value.ledger_index,
            },
        )
    }
}

} // verus!
