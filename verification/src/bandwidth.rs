//! Variant data of bandwidth credentials at issuance time.
//!
//! A bandwidth credential is either a voucher backed by a deposited token
//! value or a free pass valid until an expiry date. This module holds the
//! plain data that distinguishes the two variants; the cryptographic
//! issuance itself is an external collaborator.

use vstd::prelude::*;

verus! {

/// The kind of a bandwidth credential.
#[derive(Clone, Copy, Debug, PartialEq, Eq, Structural)]
pub enum CredentialType {
    /// A credential backed by a deposited token value.
    Voucher,

    /// A credential granted without a deposit, valid until it expires.
    FreePass,
}

/// Issuance data specific to a bandwidth voucher.
#[derive(Clone, Debug, PartialEq, Eq)]
pub struct BandwidthVoucherIssuanceData {
    /// The deposited value backing the voucher, in plain text.
    pub value_plain: String,
}

impl BandwidthVoucherIssuanceData {
    /// The voucher's public value, in plain text.
    pub fn value_plain(&self) -> (r: String)
        ensures
            r@ == self.value_plain@,
    {
        self.value_plain.clone()
    }
}

/// Issuance data specific to a free pass.
#[derive(Clone, Debug, PartialEq, Eq)]
pub struct FreePassIssuanceData {
    /// The expiry date of the pass, in plain text.
    pub expiry_date_plain: String,
}

impl FreePassIssuanceData {
    /// The pass's expiry date, in plain text.
    pub fn expiry_date_plain(&self) -> (r: String)
        ensures
            r@ == self.expiry_date_plain@,
    {
        self.expiry_date_plain.clone()
    }
}

/// Data specific to the kind of bandwidth credential being issued: a value
/// for a bandwidth voucher, an expiry date for a free pass.
#[derive(Clone, Debug, PartialEq, Eq)]
pub enum BandwidthCredentialIssuanceDataVariant {
    /// A voucher backed by a deposit.
    Voucher(BandwidthVoucherIssuanceData),

    /// A free pass with an expiry date.
    FreePass(FreePassIssuanceData),
}

impl From<BandwidthVoucherIssuanceData> for BandwidthCredentialIssuanceDataVariant {
    fn from(value: BandwidthVoucherIssuanceData) -> (r: Self) {
        BandwidthCredentialIssuanceDataVariant::Voucher(value)
    }
}

impl vstd::std_specs::convert::FromSpecImpl<BandwidthVoucherIssuanceData>
    for BandwidthCredentialIssuanceDataVariant {
    open spec fn obeys_from_spec() -> bool {
        true
    }

    open spec fn from_spec(value: BandwidthVoucherIssuanceData) -> Self {
        BandwidthCredentialIssuanceDataVariant::Voucher(value)
    }
}

impl From<FreePassIssuanceData> for BandwidthCredentialIssuanceDataVariant {
    fn from(value: FreePassIssuanceData) -> (r: Self) {
        BandwidthCredentialIssuanceDataVariant::FreePass(value)
    }
}

impl vstd::std_specs::convert::FromSpecImpl<FreePassIssuanceData>
    for BandwidthCredentialIssuanceDataVariant {
    open spec fn obeys_from_spec() -> bool {
        true
    }

    open spec fn from_spec(value: FreePassIssuanceData) -> Self {
        BandwidthCredentialIssuanceDataVariant::FreePass(value)
    }
}

impl BandwidthCredentialIssuanceDataVariant {
    /// The kind of credential this data belongs to.
    pub fn info(&self) -> (r: CredentialType)
        ensures
            self is Voucher ==> r == CredentialType::Voucher,
            self is FreePass ==> r == CredentialType::FreePass,
    {
        match self {
            BandwidthCredentialIssuanceDataVariant::Voucher(..) => CredentialType::Voucher,
            BandwidthCredentialIssuanceDataVariant::FreePass(..) => CredentialType::FreePass,
        }
    }

    /// The variant's single public attribute, in plain text: the deposited
    /// value of a voucher, the expiry date of a free pass.
    pub fn public_value_plain(&self) -> (r: String)
        ensures
            self matches BandwidthCredentialIssuanceDataVariant::Voucher(voucher) ==> r@
                == voucher.value_plain@,
            self matches BandwidthCredentialIssuanceDataVariant::FreePass(freepass) ==> r@
                == freepass.expiry_date_plain@,
    {
        match self {
            BandwidthCredentialIssuanceDataVariant::Voucher(voucher) => voucher.value_plain(),
            BandwidthCredentialIssuanceDataVariant::FreePass(freepass) => {
                freepass.expiry_date_plain()
            },
        }
    }

    /// The voucher data, when this is a voucher.
    pub fn voucher_data(&self) -> (r: Option<&BandwidthVoucherIssuanceData>)
        ensures
            self matches BandwidthCredentialIssuanceDataVariant::Voucher(voucher) ==> (
            r matches Some(data) && *data == voucher),
            self is FreePass ==> r is None,
    {
        match self {
            BandwidthCredentialIssuanceDataVariant::Voucher(voucher) => Some(voucher),
            _ => None,
        }
    }
}

} // verus!
