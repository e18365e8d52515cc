//! Field codes `(type << 16) | field` of the serialized fields this library
//! writes or navigates, named after the protocol's `sf*` constants.

#![allow(non_upper_case_globals)]

use vstd::prelude::*;

verus! {

/// `sfTransactionType` (UInt16, 2).
pub const sfTransactionType: u32 = 0x0001_0002;

/// `sfFlags` (UInt32, 2).
pub const sfFlags: u32 = 0x0002_0002;

/// `sfSequence` (UInt32, 4).
pub const sfSequence: u32 = 0x0002_0004;

/// `sfFirstLedgerSequence` (UInt32, 26).
pub const sfFirstLedgerSequence: u32 = 0x0002_001A;

/// `sfLastLedgerSequence` (UInt32, 27).
pub const sfLastLedgerSequence: u32 = 0x0002_001B;

/// `sfAmount` (Amount, 1).
pub const sfAmount: u32 = 0x0006_0001;

/// `sfBalance` (Amount, 2).
pub const sfBalance: u32 = 0x0006_0002;

/// `sfLowLimit` (Amount, 6).
pub const sfLowLimit: u32 = 0x0006_0006;

/// `sfHighLimit` (Amount, 7).
pub const sfHighLimit: u32 = 0x0006_0007;

/// `sfFee` (Amount, 8).
pub const sfFee: u32 = 0x0006_0008;

/// `sfSigningPubKey` (Blob, 3).
pub const sfSigningPubKey: u32 = 0x0007_0003;

/// `sfBlob` (Blob, 26).
pub const sfBlob: u32 = 0x0007_001A;

/// `sfAccount` (AccountID, 1).
pub const sfAccount: u32 = 0x0008_0001;

/// `sfDestination` (AccountID, 3).
pub const sfDestination: u32 = 0x0008_0003;

/// `sfAmountEntry` (STObject, 91).
pub const sfAmountEntry: u32 = 0x000E_005B;

/// `sfAmounts` (STArray, 92).
pub const sfAmounts: u32 = 0x000F_005C;

/// The `ObjectEndMarker` pseudo-field (STObject, 1).
pub const OBJECT_END_MARKER: u32 = 0x000E_0001;

/// The `ArrayEndMarker` pseudo-field (STArray, 1).
pub const ARRAY_END_MARKER: u32 = 0x000F_0001;

/// Transaction type code of `Remit`.
pub const TT_REMIT: u16 = 95;

/// The `tfFullyCanonicalSig` transaction flag.
pub const TF_CANONICAL: u32 = 0x8000_0000;

} // verus!
