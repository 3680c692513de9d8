use vstd::prelude::*;

verus! {

/// The authenticity proof the external proof generator produces: a succinct
/// attestation that a verified email satisfies the claimed command structure.
/// Opaque here; it is carried unchanged into the authentication message.
#[derive(Debug)]
pub struct EmailProof {
    pub bytes: Vec<u8>,
}

/// The bundle submitted to the chain to authorize an action on behalf of the
/// email's apparent sender.
#[derive(Debug)]
pub struct EmailAuthMsg {
    /// Which command template the encoded parameters instantiate.
    pub template_id: u64,
    /// The command's parameters, each already encoded for the chain.
    pub command_params: Vec<Vec<u8>>,
    /// How many leading characters of the command the template skips; this
    /// orchestrator always submits the full command.
    pub skipped_command_prefix: u64,
    pub proof: EmailProof,
}

/// Assembles the authentication message from the request's template
/// identifier, the encoded command parameters and the generated proof. The
/// skipped-prefix length is always zero: nothing of the command is elided.
pub fn get_email_auth_msg(
    template_id: u64,
    command_params_encoded: Vec<Vec<u8>>,
    email_proof: EmailProof,
) -> (m: EmailAuthMsg)
    ensures
        m.template_id == template_id,
        m.command_params@ == command_params_encoded@,
        m.skipped_command_prefix == 0,
        m.proof.bytes@ == email_proof.bytes@,
{
    EmailAuthMsg {
        template_id: template_id,
        command_params: command_params_encoded,
        skipped_command_prefix: 0,
        proof: email_proof,
    }
}

} // verus!
