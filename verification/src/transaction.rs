//! The parts of a transaction that a template hash commits to.

use vstd::prelude::*;

verus! {

/// A transaction input, reduced to what the template commits to.
#[derive(Clone, Debug, PartialEq, Eq)]
pub struct TxInput {
    /// The unlocking script; empty for inputs that spend witness programs.
    pub script_sig: Vec<u8>,
    /// The sequence number.
    pub sequence: u32,
}

/// A transaction output: an amount and the script that locks it.
#[derive(Clone, Debug, PartialEq, Eq)]
pub struct TxOutput {
    /// The amount, in indivisible units.
    pub value: u64,
    /// The locking script.
    pub script_pubkey: Vec<u8>,
}

/// A transaction as the template hash sees it.
#[derive(Clone, Debug, PartialEq, Eq)]
pub struct TxTemplate {
    /// The transaction version.
    pub version: i32,
    /// The lock time, as the 32-bit number that is serialized.
    pub lock_time: u32,
    /// The inputs, in order.
    pub inputs: Vec<TxInput>,
    /// The outputs, in order.
    pub outputs: Vec<TxOutput>,
}

/// The mathematical value of a [`TxInput`].
pub struct InputModel {
    pub script_sig: Seq<u8>,
    pub sequence: u32,
}

/// The mathematical value of a [`TxOutput`].
pub struct OutputModel {
    pub value: u64,
    pub script_pubkey: Seq<u8>,
}

/// The mathematical value of a [`TxTemplate`].
pub struct TxModel {
    pub version: i32,
    pub lock_time: u32,
    pub inputs: Seq<InputModel>,
    pub outputs: Seq<OutputModel>,
}

impl View for TxInput {
    type V = InputModel;

    open spec fn view(&self) -> InputModel {
        InputModel { script_sig: self.script_sig@, sequence: self.sequence }
    }
}

impl View for TxOutput {
    type V = OutputModel;

    open spec fn view(&self) -> OutputModel {
        OutputModel { value: self.value, script_pubkey: self.script_pubkey@ }
    }
}

/// The models of a run of inputs.
pub open spec fn input_models(inputs: Seq<TxInput>) -> Seq<InputModel> {
    Seq::new(inputs.len(), |i: int| inputs[i]@)
}

/// The models of a run of outputs.
pub open spec fn output_models(outputs: Seq<TxOutput>) -> Seq<OutputModel> {
    Seq::new(outputs.len(), |i: int| outputs[i]@)
}

impl View for TxTemplate {
    type V = TxModel;

    open spec fn view(&self) -> TxModel {
        TxModel {
            version: self.version,
            lock_time: self.lock_time,
            inputs: input_models(self.inputs@),
            outputs: output_models(self.outputs@),
        }
    }
}

} // verus!
