//! The closed set of hardware variants and the wire protocol each one speaks.

use vstd::prelude::*;

verus! {

/// Product identifier of the Beast X 8K wireless receiver.
pub const BEAST_X_8K_RECEIVER_ID: u16 = 0xA883;

/// Product identifier of the Beast X 8K mouse on a cable.
pub const BEAST_X_8K_ID: u16 = 0xA884;

/// Product identifier of the Beast X mouse on a cable.
pub const BEAST_X_ID: u16 = 0xA888;

/// Product identifier of the Beast X wireless receiver.
pub const BEAST_X_RECEIVER_ID: u16 = 0xA887;

/// The two report exchanges that the known hardware speaks. They share no
/// command bytes and no buffer size.
#[derive(Clone, Copy, Debug, PartialEq, Eq, Structural)]
pub enum Protocol {
    /// Queries travel as 65-byte feature reports; transport failures are
    /// absorbed.
    FeatureReport,
    /// Queries travel as 64-byte output reports answered by input reports;
    /// transport failures abort the query.
    WriteRead,
}

/// A recognised hardware variant, or `Unknown`.
#[derive(Clone, Copy, Debug, PartialEq, Eq, Structural)]
pub enum WLMouseProduct {
    BeastX8KReceiver,
    BeastX8K,
    BeastX,
    BeastXReceiver,
    Unknown,
}

impl WLMouseProduct {
    /// The variant that a product identifier stands for.
    pub open spec fn of_id(product_id: u16) -> WLMouseProduct {
        if product_id == BEAST_X_8K_RECEIVER_ID {
            WLMouseProduct::BeastX8KReceiver
        } else if product_id == BEAST_X_8K_ID {
            WLMouseProduct::BeastX8K
        } else if product_id == BEAST_X_ID {
            WLMouseProduct::BeastX
        } else if product_id == BEAST_X_RECEIVER_ID {
            WLMouseProduct::BeastXReceiver
        } else {
            WLMouseProduct::Unknown
        }
    }

    /// The identifier that a variant is sold under; `Unknown` has none and
    /// answers zero.
    pub open spec fn id_of(self) -> u16 {
        match self {
            WLMouseProduct::BeastX8KReceiver => BEAST_X_8K_RECEIVER_ID,
            WLMouseProduct::BeastX8K => BEAST_X_8K_ID,
            WLMouseProduct::BeastX => BEAST_X_ID,
            WLMouseProduct::BeastXReceiver => BEAST_X_RECEIVER_ID,
            WLMouseProduct::Unknown => 0,
        }
    }

    /// The protocol that a variant speaks; `Unknown` speaks none.
    pub open spec fn protocol_of(self) -> Option<Protocol> {
        match self {
            WLMouseProduct::BeastX8KReceiver | WLMouseProduct::BeastX8K => Some(
                Protocol::FeatureReport,
            ),
            WLMouseProduct::BeastX | WLMouseProduct::BeastXReceiver => Some(Protocol::WriteRead),
            WLMouseProduct::Unknown => None,
        }
    }

    /// The text shown to a person for a variant.
    pub open spec fn name_of(self) -> Seq<char> {
        match self {
            WLMouseProduct::BeastX8KReceiver => "WLMouse Beast X 8K Receiver"@,
            WLMouseProduct::BeastX8K => "WLMouse Beast X 8K"@,
            WLMouseProduct::BeastXReceiver => "WLMouse Beast X Receiver"@,
            WLMouseProduct::BeastX => "WLMouse Beast X"@,
            WLMouseProduct::Unknown => "Unknown"@,
        }
    }

    /// Maps a product identifier to its variant. Total: an identifier that
    /// is not known maps to `Unknown`.
    pub fn classify(product_id: u16) -> (product: WLMouseProduct)
        ensures
            product == Self::of_id(product_id),
    {
        match product_id {
            BEAST_X_8K_RECEIVER_ID => WLMouseProduct::BeastX8KReceiver,
            BEAST_X_8K_ID => WLMouseProduct::BeastX8K,
            BEAST_X_ID => WLMouseProduct::BeastX,
            BEAST_X_RECEIVER_ID => WLMouseProduct::BeastXReceiver,
            _ => WLMouseProduct::Unknown,
        }
    }

    /// The identifier of a variant.
    pub fn id(self) -> (id: u16)
        ensures
            id == self.id_of(),
    {
        match self {
            WLMouseProduct::BeastX8KReceiver => BEAST_X_8K_RECEIVER_ID,
            WLMouseProduct::BeastX8K => BEAST_X_8K_ID,
            WLMouseProduct::BeastX => BEAST_X_ID,
            WLMouseProduct::BeastXReceiver => BEAST_X_RECEIVER_ID,
            WLMouseProduct::Unknown => 0,
        }
    }

    /// The protocol of a variant.
    pub fn protocol(self) -> (protocol: Option<Protocol>)
        ensures
            protocol == self.protocol_of(),
    {
        match self {
            WLMouseProduct::BeastX8KReceiver | WLMouseProduct::BeastX8K => Some(
                Protocol::FeatureReport,
            ),
            WLMouseProduct::BeastX | WLMouseProduct::BeastXReceiver => Some(Protocol::WriteRead),
            WLMouseProduct::Unknown => None,
        }
    }

    /// The name of a variant.
    pub fn name(self) -> (name: &'static str)
        ensures
            name@ == self.name_of(),
    {
        match self {
            WLMouseProduct::BeastX8KReceiver => "WLMouse Beast X 8K Receiver",
            WLMouseProduct::BeastX8K => "WLMouse Beast X 8K",
            WLMouseProduct::BeastXReceiver => "WLMouse Beast X Receiver",
            WLMouseProduct::BeastX => "WLMouse Beast X",
            WLMouseProduct::Unknown => "Unknown",
        }
    }
}

impl TryFrom<u16> for WLMouseProduct {
    type Error = ();

    /// Never fails: an identifier that is not known gives `Unknown`.
    fn try_from(value: u16) -> (result: Result<Self, Self::Error>) {
        Ok(WLMouseProduct::classify(value))
    }
}

impl vstd::std_specs::convert::TryFromSpecImpl<u16> for WLMouseProduct {
    open spec fn obeys_try_from_spec() -> bool {
        true
    }

    open spec fn try_from_spec(value: u16) -> Result<Self, Self::Error> {
        Ok(WLMouseProduct::of_id(value))
    }
}

/// Classification inverts `id_of` on every known variant, and an identifier
/// is `Unknown` exactly when it is none of the four known ones.
pub proof fn lemma_classify_known(product: WLMouseProduct, product_id: u16)
    ensures
        product != WLMouseProduct::Unknown ==> WLMouseProduct::of_id(product.id_of()) == product,
        WLMouseProduct::of_id(product_id) == WLMouseProduct::Unknown <==> product_id
            != BEAST_X_8K_RECEIVER_ID && product_id != BEAST_X_8K_ID && product_id != BEAST_X_ID
            && product_id != BEAST_X_RECEIVER_ID,
        WLMouseProduct::of_id(product_id) != WLMouseProduct::Unknown ==> WLMouseProduct::of_id(
            product_id,
        ).id_of() == product_id,
{
}

} // verus!
