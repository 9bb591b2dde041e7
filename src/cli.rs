use vstd::prelude::*;

verus! {

/// Arguments of the UTXO query command.
#[derive(Clone, Debug, PartialEq, Eq)]
pub struct GetUTXOs {
    /// The Ethereum RPC URL.
    pub rpc_url: String,
    /// The hex-encoded address of the UTXO contract.
    pub utxo_address: String,
    /// The Ethereum address whose UTXOs are listed.
    pub address: String,
}

/// Arguments of the shuffle command.
#[derive(Clone, Debug, PartialEq, Eq)]
pub struct Shuffle {
    /// The UTXO id on the UTXO contract, in decimal.
    pub utxo_id: String,
    /// The URL of the shuffle service.
    pub service_url: String,
    /// The Ethereum RPC URL.
    pub rpc_url: String,
    /// Path of the file with the hex-encoded ECDSA private key.
    pub ecdsa_priv_path: String,
    /// Path of the file with the PKCS#1 PEM-encoded RSA private key.
    pub rsa_priv_path: String,
    /// The hex-encoded address of the UTXO contract.
    pub utxo_address: String,
    /// The address that receives the mixed output.
    pub output_address: String,
}

/// The subcommands of the UTXO command.
#[derive(Clone, Debug, PartialEq, Eq)]
pub enum UtxoSubCommand {
    /// Return information about UTXOs.
    Get(GetUTXOs),
}

/// The UTXO command.
#[derive(Clone, Debug, PartialEq, Eq)]
pub struct UtxosCommand {
    pub cmd: UtxoSubCommand,
}

/// The commands of the client.
#[derive(Clone, Debug, PartialEq, Eq)]
pub enum Cli {
    /// Run a shuffle session.
    Shuffle(Shuffle),
    /// Operations on UTXOs.
    Utxo(UtxosCommand),
}

} // verus!
