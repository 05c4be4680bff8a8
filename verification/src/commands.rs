use vstd::prelude::*;
use crate::error::PipelineError;
use crate::hexenc::{encode_hex, hex_of};

verus! {

/// The utility subcommands.
#[derive(Clone, Copy, Debug, PartialEq, Eq, Structural)]
pub enum UtilCommands {
    ViewParamInfo,
}

/// The utility command: inspection helpers around a loaded parameter set.
#[derive(Clone, Copy, Debug, PartialEq, Eq, Structural)]
pub struct UtilCommand {
    pub command: UtilCommands,
}

/// The rendered view of a loaded parameter set: its size exponent and the
/// hex renderings of its distinguished group elements.
#[derive(Clone, Debug)]
pub struct ParamInfo {
    pub k: u32,
    pub g_hex: String,
    pub g2_hex: String,
    pub s_g2_hex: String,
}

impl UtilCommand {
    /// Computes the parameter information the command reports, from the
    /// parameter size and the byte encodings of the first generator and
    /// the two second-group elements of the loaded parameter set.
    pub fn run(&self, k: u32, g: &Vec<u8>, g2: &Vec<u8>, s_g2: &Vec<u8>) -> (r: ParamInfo)
        ensures
            r.k == k,
            r.g_hex@ == hex_of(g@),
            r.g2_hex@ == hex_of(g2@),
            r.s_g2_hex@ == hex_of(s_g2@),
    {
        match self.command {
            UtilCommands::ViewParamInfo => ParamInfo {
                k,
                g_hex: encode_hex(g),
                g2_hex: encode_hex(g2),
                s_g2_hex: encode_hex(s_g2),
            },
        }
    }
}

/// The commitment-scheme variants a generated verify transaction can name.
#[derive(Clone, Copy, Debug, PartialEq, Eq, Structural)]
pub enum KZGVariant {
    GWC,
    SHPLONK,
}

/// The subcommand that assembles an on-chain verify-proof transaction.
#[derive(Clone, Debug)]
pub struct BuildVerifyProofTxn {
    pub proof_path: String,
    pub output_dir: Option<String>,
    pub param_address: String,
    pub circuit_address: String,
    pub variant: KZGVariant,
}

impl BuildVerifyProofTxn {
    /// Transaction assembly is not part of the proving core: the command
    /// performs no work and reports success.
    pub fn run(
        &self,
        zkmove_address: &str,
        onchain_verifier_module: &str,
        onchain_verify_func: &str,
    ) -> (r: Result<(), PipelineError>)
        ensures
            r is Ok,
    {
        let _ = zkmove_address;
        let _ = onchain_verifier_module;
        let _ = onchain_verify_func;
        Ok(())
    }
}

} // verus!
