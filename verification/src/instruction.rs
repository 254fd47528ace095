//! The four instructions of a sale and their wire form: one tag byte, then
//! the arguments as little-endian numbers.
use vstd::prelude::*;
use crate::error::SaleError;
use crate::wire::le_value;
use crate::wire::read_u64;

verus! {

/// What a caller asks of the sale.
#[derive(Clone, Copy, Debug, PartialEq, Eq, Structural)]
pub enum TokenSaleInstruction {
    /// Sets the sale up with its price parameters and the length of a phase.
    InitTokenSale {
        per_token_price: u64,
        max_token_price: u64,
        increase_token_price: u64,
        phase_delay_time: u64,
    },
    /// Buys tokens at the price of the current phase.
    BuyToken { number_of_tokens: u64 },
    /// Hands tokens out of escrow without payment.
    AirdropToken { number_of_tokens: u64 },
    /// Closes the sale.
    EndTokenSale {  },
}

/// The instruction that the bytes spell, if they spell one: the tag must be
/// known and the length must be that of the tag and its arguments, no more
/// and no less.
pub open spec fn parsed(data: Seq<u8>) -> Option<TokenSaleInstruction> {
    if data.len() == 33 && data[0] == 0 {
        Some(
            TokenSaleInstruction::InitTokenSale {
                per_token_price: le_value(data.subrange(1, 9)) as u64,
                max_token_price: le_value(data.subrange(9, 17)) as u64,
                increase_token_price: le_value(data.subrange(17, 25)) as u64,
                phase_delay_time: le_value(data.subrange(25, 33)) as u64,
            },
        )
    } else if data.len() == 9 && data[0] == 1 {
        Some(
            TokenSaleInstruction::BuyToken { number_of_tokens: le_value(data.subrange(1, 9)) as u64 },
        )
    } else if data.len() == 9 && data[0] == 2 {
        Some(
            TokenSaleInstruction::AirdropToken {
                number_of_tokens: le_value(data.subrange(1, 9)) as u64,
            },
        )
    } else if data.len() == 1 && data[0] == 3 {
        Some(TokenSaleInstruction::EndTokenSale {  })
    } else {
        None
    }
}

impl TokenSaleInstruction {
    /// Decodes an instruction. Anything that is not a known tag followed by
    /// exactly its arguments is refused.
    pub fn unpack(input: &[u8]) -> (res: Result<TokenSaleInstruction, SaleError>)
        ensures
            res == match parsed(input@) {
                Some(instruction) => Ok::<TokenSaleInstruction, SaleError>(instruction),
                None => Err::<TokenSaleInstruction, SaleError>(SaleError::DecodeError),
            },
    {
        if input.len() == 0 {
            return Err(SaleError::DecodeError);
        }
        let tag: u8 = input[0];
        if tag == 0 && input.len() == 33 {
            Ok(
                TokenSaleInstruction::InitTokenSale {
                    per_token_price: read_u64(input, 1),
                    max_token_price: read_u64(input, 9),
                    increase_token_price: read_u64(input, 17),
                    phase_delay_time: read_u64(input, 25),
                },
            )
        } else if tag == 1 && input.len() == 9 {
            Ok(TokenSaleInstruction::BuyToken { number_of_tokens: read_u64(input, 1) })
        } else if tag == 2 && input.len() == 9 {
            Ok(TokenSaleInstruction::AirdropToken { number_of_tokens: read_u64(input, 1) })
        } else if tag == 3 && input.len() == 1 {
            Ok(TokenSaleInstruction::EndTokenSale {  })
        } else {
            Err(SaleError::DecodeError)
        }
    }
}

} // verus!
