//! Typed failures of the registry.  Every call either commits in full or
//! returns one of these and leaves the state untouched.

use vstd::prelude::*;

verus! {

#[derive(Debug)]
pub enum ContractError {
    /// The caller lacks the required ownership or role.
    Unauthorized { reason: String },
    /// A referenced agent id is absent.
    AgentNotFound { agent_id: String },
    /// The operation targets a deactivated agent.
    AgentNotActive { agent_id: String },
    /// The owner identity already has an agent.
    AgentAlreadyExists { agent_id: String },
    /// Available funds are below what the operation moves.
    InsufficientBalance { required: u128, available: u128 },
    /// The agent name is empty, too long, or holds a forbidden character.
    InvalidAgentName { reason: String },
    /// A referenced service id is absent.
    ServiceNotFound { service_id: String },
    /// The service is not in a state that permits the operation.
    InvalidServiceStatus { service_id: String },
    /// A referenced message id is absent.
    MessageNotFound { message_id: String },
    /// A referenced purchase order id is absent.
    PurchaseOrderNotFound { po_id: String },
    /// A referenced invoice id is absent.
    InvoiceNotFound { invoice_id: String },
    /// The agent has no wallet record.
    WalletNotInitialized {},
    /// A coin does not match the settlement asset.
    InvalidPayment {},
    /// No funds, or a zero amount, were attached to the call.
    NoFunds {},
    /// More than one denomination was attached to the call.
    MultipleDenoms {},
    /// The attached funds are of the wrong denomination.
    MissingDenom {},
    /// An out-of-range governance parameter.
    InvalidConfig { param: String },
    /// A transfer from an agent to itself.
    CircularTransfer {},
    /// A domain error outside the fixed taxonomy.
    CustomError { msg: String },
    /// The operation is illegal for the current state-machine state.
    InvalidOperation { operation: String },
    /// Checked arithmetic overflowed or underflowed.
    Overflow {},
}

impl ContractError {
    /// A short machine-readable label for the error kind.
    pub fn kind_label(&self) -> (r: &'static str)
        ensures
            r@ == self.spec_kind_label(),
    {
        match self {
            ContractError::Unauthorized { .. } => "unauthorized",
            ContractError::AgentNotFound { .. } => "agent_not_found",
            ContractError::AgentNotActive { .. } => "agent_not_active",
            ContractError::AgentAlreadyExists { .. } => "agent_already_exists",
            ContractError::InsufficientBalance { .. } => "insufficient_balance",
            ContractError::InvalidAgentName { .. } => "invalid_agent_name",
            ContractError::ServiceNotFound { .. } => "service_not_found",
            ContractError::InvalidServiceStatus { .. } => "invalid_service_status",
            ContractError::MessageNotFound { .. } => "message_not_found",
            ContractError::PurchaseOrderNotFound { .. } => "purchase_order_not_found",
            ContractError::InvoiceNotFound { .. } => "invoice_not_found",
            ContractError::WalletNotInitialized { .. } => "wallet_not_initialized",
            ContractError::InvalidPayment { .. } => "invalid_payment",
            ContractError::NoFunds { .. } => "no_funds",
            ContractError::MultipleDenoms { .. } => "multiple_denoms",
            ContractError::MissingDenom { .. } => "missing_denom",
            ContractError::InvalidConfig { .. } => "invalid_config",
            ContractError::CircularTransfer { .. } => "circular_transfer",
            ContractError::CustomError { .. } => "custom_error",
            ContractError::InvalidOperation { .. } => "invalid_operation",
            ContractError::Overflow { .. } => "overflow",
        }
    }

    pub open spec fn spec_kind_label(self) -> Seq<char> {
        match self {
            ContractError::Unauthorized { .. } => "unauthorized"@,
            ContractError::AgentNotFound { .. } => "agent_not_found"@,
            ContractError::AgentNotActive { .. } => "agent_not_active"@,
            ContractError::AgentAlreadyExists { .. } => "agent_already_exists"@,
            ContractError::InsufficientBalance { .. } => "insufficient_balance"@,
            ContractError::InvalidAgentName { .. } => "invalid_agent_name"@,
            ContractError::ServiceNotFound { .. } => "service_not_found"@,
            ContractError::InvalidServiceStatus { .. } => "invalid_service_status"@,
            ContractError::MessageNotFound { .. } => "message_not_found"@,
            ContractError::PurchaseOrderNotFound { .. } => "purchase_order_not_found"@,
            ContractError::InvoiceNotFound { .. } => "invoice_not_found"@,
            ContractError::WalletNotInitialized { .. } => "wallet_not_initialized"@,
            ContractError::InvalidPayment { .. } => "invalid_payment"@,
            ContractError::NoFunds { .. } => "no_funds"@,
            ContractError::MultipleDenoms { .. } => "multiple_denoms"@,
            ContractError::MissingDenom { .. } => "missing_denom"@,
            ContractError::InvalidConfig { .. } => "invalid_config"@,
            ContractError::CircularTransfer { .. } => "circular_transfer"@,
            ContractError::CustomError { .. } => "custom_error"@,
            ContractError::InvalidOperation { .. } => "invalid_operation"@,
            ContractError::Overflow { .. } => "overflow"@,
        }
    }
}

} // verus!
