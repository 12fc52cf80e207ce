//! Bring-up of an Intel VT-x virtual machine monitor.
//!
//! The library decides what is to be done: which regions are handed to the
//! VMX instructions, which VMCS field gets which value, in which order, and
//! what a failure leads to. It executes no privileged instruction. Each such
//! instruction is a [`protocol::Request`] that the surrounding program carries
//! out and answers with a [`protocol::Event`].

pub mod encoding;
pub mod error;
pub mod laws;
pub mod processor;
pub mod program;
pub mod protocol;
pub mod run;
pub mod semantics;
pub mod vcpu;
pub mod vmm;
