use vstd::prelude::*;
use vstd::slice::slice_to_vec;
use crate::chain::Chain;
use crate::packets::Height;
use crate::signing::{DataType, SignBytesData, SignMode, opt_vec_view, spec_timestamped_sign, timestamped_sign};
use crate::text::owned;
use crate::duration::{ProtoDuration, spec_duration_to_proto};
use crate::transaction::{
    AnyMessage, ConnectionOpenAckMessage, ConnectionOpenInitMessage, CreateClientMessage,
    TendermintClientPlan, TxRaw, build_transaction, connection_open_init_message,
    connection_version, proof_height, spec_transaction, tendermint_client_plan, any_view,
    public_key_any, spec_public_key_any,
};

verus! {

/// A proof signed at sequence one with sign mode direct, as the solo
/// machine signs the proofs of a handshake with a client it has just
/// created.
pub open spec fn spec_first_sequence_proof(
    secret: Seq<u8>,
    chain: Chain,
    data_type: DataType,
    data: Seq<u8>,
) -> Option<Seq<u8>> {
    spec_timestamped_sign(
        secret,
        1,
        chain.consensus_timestamp,
        chain.diversifier@,
        data_type,
        data,
        SignMode::Direct,
    )
}

fn first_sequence_proof(chain: &Chain, secret: &[u8; 32], data_type: DataType, data: &[u8]) -> (r:
    Option<Vec<u8>>)
    ensures
        opt_vec_view(r) == spec_first_sequence_proof(secret@, *chain, data_type, data@),
{
    let sign_bytes = SignBytesData {
        sequence: 1,
        timestamp: chain.consensus_timestamp,
        diversifier: chain.diversifier.clone(),
        data_type,
        data: slice_to_vec(data),
    };
    timestamped_sign(secret, &sign_bytes, SignMode::Direct)
}

/// Builds the messages with which the solo machine sets up a new client and
/// connection on a chain: the client it creates starts at sequence one, and
/// every proof of the handshake is signed at that sequence. It holds the
/// chain's record, the key that signs the proofs, the account that signs the
/// transactions, and the memo they carry.
pub struct TransactionBuilder {
    pub chain: Chain,
    pub secret: [u8; 32],
    pub signer: String,
    pub memo: String,
}

impl TransactionBuilder {
    /// A builder for `chain`, signing proofs with `secret` and transactions
    /// as `signer`.
    pub fn new(chain: Chain, secret: [u8; 32], signer: String, memo: String) -> (r: Self)
        ensures
            r.chain == chain,
            r.secret == secret,
            r.signer == signer,
            r.memo == memo,
    {
        TransactionBuilder { chain, secret, signer, memo }
    }

    /// The message that creates the solo machine client: it starts at
    /// sequence one, not frozen, allowing updates after a proposal, with the
    /// packed public key of the builder's key and the chain's diversifier and
    /// consensus timestamp, signed by the builder's account. `None` when the
    /// key has no public key that can be packed.
    pub fn msg_create_solo_machine_client(&self) -> (r: Option<CreateClientMessage>)
        ensures
            match spec_public_key_any(self.secret@) {
                None => r is None,
                Some(key) => r matches Some(m) && {
                    &&& m.sequence == 1
                    &&& m.frozen_sequence == 0
                    &&& any_view(m.public_key) == key
                    &&& m.diversifier@ == self.chain.diversifier@
                    &&& m.timestamp == self.chain.consensus_timestamp
                    &&& m.allow_update_after_proposal
                    &&& m.signer@ == self.signer@
                },
            },
    {
        let public_key = match public_key_any(&self.secret) {
            Some(k) => k,
            None => return None,
        };
        Some(
            CreateClientMessage {
                sequence: 1,
                frozen_sequence: 0,
                public_key,
                diversifier: self.chain.diversifier.clone(),
                timestamp: self.chain.consensus_timestamp,
                allow_update_after_proposal: true,
                signer: self.signer.clone(),
            },
        )
    }

    /// The tendermint client state for the chain: its id, trust level,
    /// trusting period and clock drift, the chain's `unbonding_period`, not
    /// frozen, at `latest_height`, upgrading along
    /// `upgrade`/`upgradedIBCState`, allowing no update after expiry or
    /// misbehaviour.
    pub fn msg_create_tendermint_client(
        &self,
        unbonding_period: ProtoDuration,
        latest_height: Height,
    ) -> (r: TendermintClientPlan)
        requires
            self.chain.trusting_period.wf(),
            self.chain.max_clock_drift.wf(),
        ensures
            r.chain_id@ == self.chain.id@,
            r.trust_level == self.chain.trust_level,
            r.trusting_period == spec_duration_to_proto(self.chain.trusting_period),
            r.unbonding_period == unbonding_period,
            r.max_clock_drift == spec_duration_to_proto(self.chain.max_clock_drift),
            r.frozen_height == (Height { revision_number: 0, revision_height: 0 }),
            r.latest_height == latest_height,
            r.upgrade_path@.len() == 2,
            r.upgrade_path@[0]@ == "upgrade"@,
            r.upgrade_path@[1]@ == "upgradedIBCState"@,
            !r.allow_update_after_expiry,
            !r.allow_update_after_misbehaviour,
    {
        tendermint_client_plan(&self.chain, unbonding_period, latest_height)
    }

    /// The connection-open-init message: from the solo machine client to the
    /// tendermint client, with no counterparty connection yet, key prefix
    /// `ibc`, connection version `1` and no delay, signed by the builder's
    /// account.
    pub fn msg_connection_open_init(
        &self,
        solo_machine_client_id: &str,
        tendermint_client_id: &str,
    ) -> (r: ConnectionOpenInitMessage)
        ensures
            r.client_id@ == solo_machine_client_id@,
            r.counterparty_client_id@ == tendermint_client_id@,
            r.counterparty_connection_id@ == Seq::<char>::empty(),
            r.counterparty_key_prefix@ == seq![0x69u8, 0x62u8, 0x63u8],
            r.version.identifier@ == "1"@,
            r.version.features@.len() == 2,
            r.version.features@[0]@ == "ORDER_ORDERED"@,
            r.version.features@[1]@ == "ORDER_UNORDERED"@,
            r.delay_period == 0,
            r.signer@ == self.signer@,
    {
        connection_open_init_message(
            solo_machine_client_id,
            tendermint_client_id,
            self.signer.as_str(),
        )
    }

    /// The connection-open-ack message, carrying the packed tendermint client
    /// state `client_state`: its three proofs (of the connection,
    /// of the tendermint client state and of its consensus state, each given
    /// as the encoded state data) are all signed at sequence one with sign
    /// mode direct, the proof height and the consensus height are both
    /// height one of revision zero, and the chain record is left as it is.
    pub fn msg_connection_open_ack(
        &self,
        solo_machine_connection_id: &str,
        tendermint_connection_id: &str,
        client_state: AnyMessage,
        connection_data: &[u8],
        client_data: &[u8],
        consensus_data: &[u8],
    ) -> (r: Option<ConnectionOpenAckMessage>)
        ensures
            ({
                let p1 = spec_first_sequence_proof(
                    self.secret@,
                    self.chain,
                    DataType::ConnectionState,
                    connection_data@,
                );
                let p2 = spec_first_sequence_proof(
                    self.secret@,
                    self.chain,
                    DataType::ClientState,
                    client_data@,
                );
                let p3 = spec_first_sequence_proof(
                    self.secret@,
                    self.chain,
                    DataType::ConsensusState,
                    consensus_data@,
                );
                &&& r is Some <==> (p1 is Some && p2 is Some && p3 is Some)
                &&& r matches Some(m) ==> {
                    &&& Some(m.proof_try@) == p1
                    &&& Some(m.proof_client@) == p2
                    &&& Some(m.proof_consensus@) == p3
                    &&& m.client_state == client_state
                    &&& m.proof_height == proof_height(1)
                    &&& m.consensus_height == Some(proof_height(1))
                    &&& m.connection_id@ == solo_machine_connection_id@
                    &&& m.counterparty_connection_id@ == tendermint_connection_id@
                    &&& m.version.identifier@ == "1"@
                    &&& m.version.features@.len() == 2
                    &&& m.version.features@[0]@ == "ORDER_ORDERED"@
                    &&& m.version.features@[1]@ == "ORDER_UNORDERED"@
                    &&& m.signer@ == self.signer@
                }
            }),
    {
        let proof_try = match first_sequence_proof(
            &self.chain,
            &self.secret,
            DataType::ConnectionState,
            connection_data,
        ) {
            Some(p) => p,
            None => return None,
        };
        let proof_client = match first_sequence_proof(
            &self.chain,
            &self.secret,
            DataType::ClientState,
            client_data,
        ) {
            Some(p) => p,
            None => return None,
        };
        let proof_consensus = match first_sequence_proof(
            &self.chain,
            &self.secret,
            DataType::ConsensusState,
            consensus_data,
        ) {
            Some(p) => p,
            None => return None,
        };
        Some(
            ConnectionOpenAckMessage {
                connection_id: owned(solo_machine_connection_id),
                counterparty_connection_id: owned(tendermint_connection_id),
                version: connection_version(),
                client_state,
                proof_height: Height { revision_number: 0, revision_height: 1 },
                proof_try,
                proof_client,
                proof_consensus,
                consensus_height: Some(Height { revision_number: 0, revision_height: 1 }),
                signer: self.signer.clone(),
            },
        )
    }

    /// Assembles and signs a transaction to the chain carrying `messages`,
    /// with the builder's memo, for the account with `account_number` at
    /// `account_sequence` (see [`spec_transaction`]).
    pub fn build(&self, messages: Vec<AnyMessage>, account_number: u64, account_sequence: u64) -> (r:
        Option<TxRaw>)
        ensures
            match spec_transaction(
                self.chain,
                self.secret@,
                self.memo@,
                messages@,
                account_number,
                account_sequence,
            ) {
                None => r is None,
                Some((body, auth, signature)) => r matches Some(t) && t.body_bytes@ == body
                    && t.auth_info_bytes@ == auth && t.signatures@.len() == 1
                    && t.signatures@[0]@ == signature,
            },
    {
        build_transaction(
            &self.chain,
            &self.secret,
            self.memo.as_str(),
            messages,
            account_number,
            account_sequence,
        )
    }
}

} // verus!
