//! The sale record and its 113-byte layout.
use vstd::prelude::*;
use crate::error::SaleError;
use crate::wire::bits_signed;
use crate::wire::le_bytes;
use crate::wire::le_value;
use crate::wire::lemma_le_bytes_of_value;
use crate::wire::lemma_le_value_of_bytes;
use crate::wire::lemma_overwrite_extends;
use crate::wire::lemma_signed_bits;
use crate::wire::overwrite;
use crate::wire::read_i64;
use crate::wire::read_key;
use crate::wire::read_u64;
use crate::wire::signed_bits;
use crate::wire::write_i64;
use crate::wire::write_key;
use crate::wire::write_u64;

verus! {

/// Width of an encoded sale record: one flag byte, two identifiers of 32
/// bytes and six numbers of 8 bytes.
pub const RECORD_LEN: usize = 113;

/// The persistent state of one sale.
#[derive(Clone, Copy, Debug, PartialEq, Eq)]
pub struct TokenSaleProgramData {
    /// Set once by the first instruction of a sale.
    pub is_initialized: bool,
    /// Who sells; fixed when the sale is set up.
    pub seller_pubkey: [u8; 32],
    /// The escrow account that holds the tokens on sale.
    pub temp_token_account_pubkey: [u8; 32],
    /// The price of one token in the current phase.
    pub per_token_price: u64,
    /// The price that no phase exceeds.
    pub max_token_price: u64,
    /// The step by which the price rises from one phase to the next.
    pub increase_token_price: u64,
    /// Tokens handed out so far, sold and given away.
    pub purchased_token_amount: u64,
    /// When the current phase began.
    pub phase_start_time: i64,
    /// How long a phase lasts.
    pub phase_delay_time: i64,
}

/// A sale record as a mathematical value.
pub struct SaleRecord {
    pub is_initialized: bool,
    pub seller_pubkey: Seq<u8>,
    pub temp_token_account_pubkey: Seq<u8>,
    pub per_token_price: u64,
    pub max_token_price: u64,
    pub increase_token_price: u64,
    pub purchased_token_amount: u64,
    pub phase_start_time: i64,
    pub phase_delay_time: i64,
}

impl View for TokenSaleProgramData {
    type V = SaleRecord;

    open spec fn view(&self) -> SaleRecord {
        SaleRecord {
            is_initialized: self.is_initialized,
            seller_pubkey: self.seller_pubkey@,
            temp_token_account_pubkey: self.temp_token_account_pubkey@,
            per_token_price: self.per_token_price,
            max_token_price: self.max_token_price,
            increase_token_price: self.increase_token_price,
            purchased_token_amount: self.purchased_token_amount,
            phase_start_time: self.phase_start_time,
            phase_delay_time: self.phase_delay_time,
        }
    }
}

impl SaleRecord {
    /// Both identifiers have their 32 bytes.
    pub open spec fn well_formed(self) -> bool {
        self.seller_pubkey.len() == 32 && self.temp_token_account_pubkey.len() == 32
    }

    /// The 113 bytes that hold this record: the flag, the two identifiers,
    /// then the six numbers in little-endian form.
    pub open spec fn encoding(self) -> Seq<u8> {
        seq![if self.is_initialized { 1u8 } else { 0u8 }] + self.seller_pubkey
            + self.temp_token_account_pubkey + le_bytes(self.per_token_price) + le_bytes(
            self.max_token_price,
        ) + le_bytes(self.increase_token_price) + le_bytes(self.purchased_token_amount)
            + le_bytes(signed_bits(self.phase_start_time)) + le_bytes(
            signed_bits(self.phase_delay_time),
        )
    }
}

/// Whether the bytes begin with a record: there are at least 113 of them and
/// the flag byte is 0 or 1.
pub open spec fn decodable(s: Seq<u8>) -> bool {
    s.len() >= 113 && s[0] <= 1
}

/// The record that the first 113 bytes of `s` hold.
pub open spec fn decoding(s: Seq<u8>) -> SaleRecord
    recommends
        decodable(s),
{
    SaleRecord {
        is_initialized: s[0] == 1,
        seller_pubkey: s.subrange(1, 33),
        temp_token_account_pubkey: s.subrange(33, 65),
        per_token_price: le_value(s.subrange(65, 73)) as u64,
        max_token_price: le_value(s.subrange(73, 81)) as u64,
        increase_token_price: le_value(s.subrange(81, 89)) as u64,
        purchased_token_amount: le_value(s.subrange(89, 97)) as u64,
        phase_start_time: bits_signed(le_value(s.subrange(97, 105)) as u64),
        phase_delay_time: bits_signed(le_value(s.subrange(105, 113)) as u64),
    }
}

/// Nine fields laid end to end fill 113 bytes, and each can be read back at
/// its own place.
proof fn lemma_layout(
    a: Seq<u8>,
    b: Seq<u8>,
    c: Seq<u8>,
    d: Seq<u8>,
    e: Seq<u8>,
    f: Seq<u8>,
    g: Seq<u8>,
    h: Seq<u8>,
    i: Seq<u8>,
)
    requires
        a.len() == 1,
        b.len() == 32,
        c.len() == 32,
        d.len() == 8,
        e.len() == 8,
        f.len() == 8,
        g.len() == 8,
        h.len() == 8,
        i.len() == 8,
    ensures
        ({
            let s = a + b + c + d + e + f + g + h + i;
            &&& s.len() == 113
            &&& s[0] == a[0]
            &&& s.subrange(1, 33) == b
            &&& s.subrange(33, 65) == c
            &&& s.subrange(65, 73) == d
            &&& s.subrange(73, 81) == e
            &&& s.subrange(81, 89) == f
            &&& s.subrange(89, 97) == g
            &&& s.subrange(97, 105) == h
            &&& s.subrange(105, 113) == i
        }),
{
    let s = a + b + c + d + e + f + g + h + i;
    assert(s.subrange(1, 33) =~= b);
    assert(s.subrange(33, 65) =~= c);
    assert(s.subrange(65, 73) =~= d);
    assert(s.subrange(73, 81) =~= e);
    assert(s.subrange(81, 89) =~= f);
    assert(s.subrange(89, 97) =~= g);
    assert(s.subrange(97, 105) =~= h);
    assert(s.subrange(105, 113) =~= i);
}

/// 113 bytes are their nine fields laid end to end.
proof fn lemma_fields_fill(s: Seq<u8>)
    requires
        s.len() == 113,
    ensures
        s == seq![s[0]] + s.subrange(1, 33) + s.subrange(33, 65) + s.subrange(65, 73) + s.subrange(
            73,
            81,
        ) + s.subrange(81, 89) + s.subrange(89, 97) + s.subrange(97, 105) + s.subrange(105, 113),
{
    assert(s =~= seq![s[0]] + s.subrange(1, 33) + s.subrange(33, 65) + s.subrange(65, 73)
        + s.subrange(73, 81) + s.subrange(81, 89) + s.subrange(89, 97) + s.subrange(97, 105)
        + s.subrange(105, 113));
}

/// Decoding what was encoded gives the record back: an encoding has 113
/// bytes, it can be decoded, and the record it holds is the one encoded.
pub proof fn lemma_decode_encode(r: SaleRecord)
    requires
        r.well_formed(),
    ensures
        r.encoding().len() == 113,
        decodable(r.encoding()),
        decoding(r.encoding()) == r,
{
    lemma_le_value_of_bytes(r.per_token_price);
    lemma_le_value_of_bytes(r.max_token_price);
    lemma_le_value_of_bytes(r.increase_token_price);
    lemma_le_value_of_bytes(r.purchased_token_amount);
    lemma_le_value_of_bytes(signed_bits(r.phase_start_time));
    lemma_le_value_of_bytes(signed_bits(r.phase_delay_time));
    lemma_signed_bits(r.phase_start_time, 0);
    lemma_signed_bits(r.phase_delay_time, 0);
    lemma_layout(
        seq![if r.is_initialized { 1u8 } else { 0u8 }],
        r.seller_pubkey,
        r.temp_token_account_pubkey,
        le_bytes(r.per_token_price),
        le_bytes(r.max_token_price),
        le_bytes(r.increase_token_price),
        le_bytes(r.purchased_token_amount),
        le_bytes(signed_bits(r.phase_start_time)),
        le_bytes(signed_bits(r.phase_delay_time)),
    );
}

/// Encoding what was decoded gives the bytes back: any 113 bytes whose flag
/// is 0 or 1 hold a record, and that record is encoded by those same bytes.
pub proof fn lemma_encode_decode(s: Seq<u8>)
    requires
        s.len() == 113,
        s[0] <= 1,
    ensures
        decoding(s).well_formed(),
        decoding(s).encoding() == s,
{
    let r = decoding(s);
    lemma_le_bytes_of_value(s.subrange(65, 73));
    lemma_le_bytes_of_value(s.subrange(73, 81));
    lemma_le_bytes_of_value(s.subrange(81, 89));
    lemma_le_bytes_of_value(s.subrange(89, 97));
    lemma_le_bytes_of_value(s.subrange(97, 105));
    lemma_le_bytes_of_value(s.subrange(105, 113));
    lemma_signed_bits(0, le_value(s.subrange(97, 105)) as u64);
    lemma_signed_bits(0, le_value(s.subrange(105, 113)) as u64);
    assert(seq![if r.is_initialized { 1u8 } else { 0u8 }] =~= seq![s[0]]);
    lemma_fields_fill(s);
}

impl TokenSaleProgramData {
    /// Sets every field of the record.
    pub fn init(
        &mut self,
        is_initialized: bool,
        seller_pubkey: [u8; 32],
        temp_token_account_pubkey: [u8; 32],
        per_token_price: u64,
        max_token_price: u64,
        increase_token_price: u64,
        purchased_token_amount: u64,
        phase_start_time: i64,
        phase_delay_time: i64,
    )
        ensures
            *final(self) == (TokenSaleProgramData {
                is_initialized,
                seller_pubkey,
                temp_token_account_pubkey,
                per_token_price,
                max_token_price,
                increase_token_price,
                purchased_token_amount,
                phase_start_time,
                phase_delay_time,
            }),
    {
        self.is_initialized = is_initialized;
        self.seller_pubkey = seller_pubkey;
        self.temp_token_account_pubkey = temp_token_account_pubkey;
        self.per_token_price = per_token_price;
        self.max_token_price = max_token_price;
        self.increase_token_price = increase_token_price;
        self.purchased_token_amount = purchased_token_amount;
        self.phase_start_time = phase_start_time;
        self.phase_delay_time = phase_delay_time;
    }

    /// Adds to the count of tokens handed out.
    pub fn increase_token_amount(&mut self, purchased_token_amount: u64)
        requires
            old(self).purchased_token_amount + purchased_token_amount <= u64::MAX,
        ensures
            *final(self) == (TokenSaleProgramData {
                purchased_token_amount: (old(self).purchased_token_amount
                    + purchased_token_amount) as u64,
                ..*old(self)
            }),
    {
        self.purchased_token_amount = self.purchased_token_amount + purchased_token_amount;
    }

    /// Enters a new phase: its price and the time at which it began.
    pub fn update_sale_phase(&mut self, per_token_price: u64, phase_start_time: i64)
        ensures
            *final(self) == (TokenSaleProgramData {
                per_token_price,
                phase_start_time,
                ..*old(self)
            }),
    {
        self.per_token_price = per_token_price;
        self.phase_start_time = phase_start_time;
    }

    /// Whether the sale has been set up.
    pub fn is_initialized(&self) -> (set: bool)
        ensures
            set == self.is_initialized,
    {
        self.is_initialized
    }

    /// Decodes the record at the start of `src`. Bytes after the first 113
    /// are not read.
    pub fn unpack_from_slice(src: &[u8]) -> (res: Result<TokenSaleProgramData, SaleError>)
        ensures
            decodable(src@) ==> res is Ok && res->Ok_0@ == decoding(src@),
            !decodable(src@) ==> res == Err::<TokenSaleProgramData, SaleError>(
                SaleError::DecodeError,
            ),
    {
        if src.len() < RECORD_LEN {
            return Err(SaleError::DecodeError);
        }
        let flag: u8 = src[0];
        if flag > 1 {
            return Err(SaleError::DecodeError);
        }
        Ok(
            TokenSaleProgramData {
                is_initialized: flag == 1,
                seller_pubkey: read_key(src, 1),
                temp_token_account_pubkey: read_key(src, 33),
                per_token_price: read_u64(src, 65),
                max_token_price: read_u64(src, 73),
                increase_token_price: read_u64(src, 81),
                purchased_token_amount: read_u64(src, 89),
                phase_start_time: read_i64(src, 97),
                phase_delay_time: read_i64(src, 105),
            },
        )
    }

    /// Writes the record over the first 113 bytes of `dst`, all of them, and
    /// leaves what follows alone.
    pub fn pack_into_slice(&self, dst: &mut [u8])
        requires
            old(dst).len() >= 113,
        ensures
            final(dst)@ == self@.encoding() + old(dst)@.subrange(113, old(dst).len() as int),
    {
        let ghost whole = old(dst)@;
        let ghost r = self@;
        let flag: u8 = if self.is_initialized { 1 } else { 0 };
        dst[0] = flag;
        let ghost upto_flag = seq![flag];
        assert(dst@ =~= upto_flag + whole.subrange(1, whole.len() as int));
        write_key(dst, 1, &self.seller_pubkey);
        let ghost upto_seller = upto_flag + r.seller_pubkey;
        proof {
            lemma_overwrite_extends(upto_flag, whole, r.seller_pubkey);
        }
        write_key(dst, 33, &self.temp_token_account_pubkey);
        let ghost upto_escrow = upto_seller + r.temp_token_account_pubkey;
        proof {
            lemma_overwrite_extends(upto_seller, whole, r.temp_token_account_pubkey);
        }
        write_u64(dst, 65, self.per_token_price);
        let ghost upto_price = upto_escrow + le_bytes(r.per_token_price);
        proof {
            lemma_le_value_of_bytes(r.per_token_price);
            lemma_overwrite_extends(upto_escrow, whole, le_bytes(r.per_token_price));
        }
        write_u64(dst, 73, self.max_token_price);
        let ghost upto_maximum = upto_price + le_bytes(r.max_token_price);
        proof {
            lemma_le_value_of_bytes(r.max_token_price);
            lemma_overwrite_extends(upto_price, whole, le_bytes(r.max_token_price));
        }
        write_u64(dst, 81, self.increase_token_price);
        let ghost upto_step = upto_maximum + le_bytes(r.increase_token_price);
        proof {
            lemma_le_value_of_bytes(r.increase_token_price);
            lemma_overwrite_extends(upto_maximum, whole, le_bytes(r.increase_token_price));
        }
        write_u64(dst, 89, self.purchased_token_amount);
        let ghost upto_count = upto_step + le_bytes(r.purchased_token_amount);
        proof {
            lemma_le_value_of_bytes(r.purchased_token_amount);
            lemma_overwrite_extends(upto_step, whole, le_bytes(r.purchased_token_amount));
        }
        write_i64(dst, 97, self.phase_start_time);
        let ghost upto_start = upto_count + le_bytes(signed_bits(r.phase_start_time));
        proof {
            lemma_le_value_of_bytes(signed_bits(r.phase_start_time));
            lemma_overwrite_extends(upto_count, whole, le_bytes(signed_bits(r.phase_start_time)));
        }
        write_i64(dst, 105, self.phase_delay_time);
        proof {
            lemma_le_value_of_bytes(signed_bits(r.phase_delay_time));
            lemma_overwrite_extends(upto_start, whole, le_bytes(signed_bits(r.phase_delay_time)));
        }
    }

    /// Decodes a record from a buffer of exactly 113 bytes, initialized or
    /// not.
    pub fn unpack_unchecked(input: &[u8]) -> (res: Result<TokenSaleProgramData, SaleError>)
        ensures
            input.len() == 113 && input@[0] <= 1 ==> res is Ok && res->Ok_0@ == decoding(input@),
            !(input.len() == 113 && input@[0] <= 1) ==> res == Err::<
                TokenSaleProgramData,
                SaleError,
            >(SaleError::DecodeError),
    {
        if input.len() != RECORD_LEN {
            return Err(SaleError::DecodeError);
        }
        TokenSaleProgramData::unpack_from_slice(input)
    }

    /// Encodes the record into a buffer of exactly 113 bytes. A buffer of
    /// another length is refused and left as it is.
    pub fn pack(src: TokenSaleProgramData, dst: &mut [u8]) -> (res: Result<(), SaleError>)
        ensures
            old(dst).len() == 113 ==> res is Ok && final(dst)@ == src@.encoding(),
            old(dst).len() != 113 ==> res == Err::<(), SaleError>(SaleError::DecodeError)
                && final(dst)@ == old(dst)@,
    {
        if dst.len() != RECORD_LEN {
            return Err(SaleError::DecodeError);
        }
        src.pack_into_slice(dst);
        assert(dst@ =~= src@.encoding());
        Ok(())
    }
}

} // verus!
