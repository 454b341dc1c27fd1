use vstd::prelude::*;
use crate::errors::StripVaultError;

verus! {

/// ExtensionType::ScaledUiAmount discriminator in Token-2022
pub const SCALED_UI_AMOUNT_EXTENSION_TYPE: u16 = 20;

/// Expected byte length of ScaledUiAmountConfig in TLV
pub const SCALED_UI_CONFIG_LEN: usize = 56;

/// Offset in Token-2022 Mint data where TLV extensions start
pub const MINT_EXTENSIONS_OFFSET: usize = 83;

/// Offset in standard SPL Mint data for decimals (1 byte)
pub const MINT_DECIMALS_OFFSET: usize = 44;

/// The unsigned little-endian number in the two bytes of `b` from `at`.
pub open spec fn le_u16(b: Seq<u8>, at: int) -> int {
    b[at] + 256 * b[at + 1]
}

/// The unsigned little-endian number in the eight bytes of `b`.
pub open spec fn le_u64(b: Seq<u8>) -> int {
    b[0] + 256 * (b[1] + 256 * (b[2] + 256 * (b[3] + 256 * (b[4] + 256 * (b[5] + 256 * (b[6]
        + 256 * b[7]))))))
}

/// The two's-complement little-endian number in the eight bytes of `b`.
pub open spec fn le_i64(b: Seq<u8>) -> int {
    if le_u64(b) < 0x8000_0000_0000_0000 {
        le_u64(b)
    } else {
        le_u64(b) - 0x1_0000_0000_0000_0000
    }
}

/// Scans the type-length-value entries of `data` from `offset` and gives where the payload of the
/// first complete ScaledUiAmount entry of the expected length starts; the scan stops at the first
/// entry whose header or payload runs past the end.
pub open spec fn tlv_scan(data: Seq<u8>, offset: int) -> Option<int>
    decreases data.len() - offset,
{
    if offset < 0 || offset + 4 > data.len() {
        None
    } else {
        let ext_type = le_u16(data, offset);
        let ext_len = le_u16(data, offset + 2);
        let body = offset + 4;
        if body + ext_len > data.len() {
            None
        } else if ext_type == SCALED_UI_AMOUNT_EXTENSION_TYPE && ext_len == SCALED_UI_CONFIG_LEN {
            Some(body)
        } else {
            tlv_scan(data, body + ext_len)
        }
    }
}

/// Where the ScaledUiAmountConfig of a Token-2022 mint account starts, if it has one.
pub open spec fn scaled_ui_config_offset(data: Seq<u8>) -> Option<int> {
    if data.len() < MINT_EXTENSIONS_OFFSET {
        None
    } else {
        tlv_scan(data, MINT_EXTENSIONS_OFFSET as int)
    }
}

/// On-chain layout for Token-2022 ScaledUiAmountConfig
#[derive(Clone, Copy, Debug, Default, PartialEq)]
pub struct ScaledUiAmountConfig {
    /// Authority that can update the multiplier (32 bytes)
    pub authority: [u8; 32],
    /// Current multiplier as IEEE-754 f64 (8 bytes, little-endian)
    pub multiplier: [u8; 8],
    /// Unix timestamp at which new_multiplier becomes effective (8 bytes, little-endian i64)
    pub new_multiplier_effective_timestamp: [u8; 8],
    /// Next multiplier, once effective timestamp is reached (8 bytes, little-endian f64)
    pub new_multiplier: [u8; 8],
}

/// `c` holds, field by field, the 56 bytes of `b`.
pub open spec fn config_matches(c: ScaledUiAmountConfig, b: Seq<u8>) -> bool {
    &&& c.authority@ == b.subrange(0, 32)
    &&& c.multiplier@ == b.subrange(32, 40)
    &&& c.new_multiplier_effective_timestamp@ == b.subrange(40, 48)
    &&& c.new_multiplier@ == b.subrange(48, 56)
}

fn copy_32(src: &[u8], start: usize) -> (r: [u8; 32])
    requires
        start + 32 <= src@.len(),
    ensures
        r@ == src@.subrange(start as int, start + 32),
{
    let mut out = [0u8; 32];
    let mut i: usize = 0;
    while i < 32
        invariant
            i <= 32,
            start + 32 <= src.len(),
            forall|j: int| 0 <= j < i ==> out@[j] == src@[start + j],
        decreases 32 - i,
    {
        out[i] = src[start + i];
        i = i + 1;
    }
    assert(out@ =~= src@.subrange(start as int, start + 32));
    out
}

fn copy_8(src: &[u8], start: usize) -> (r: [u8; 8])
    requires
        start + 8 <= src@.len(),
    ensures
        r@ == src@.subrange(start as int, start + 8),
{
    let mut out = [0u8; 8];
    let mut i: usize = 0;
    while i < 8
        invariant
            i <= 8,
            start + 8 <= src.len(),
            forall|j: int| 0 <= j < i ==> out@[j] == src@[start + j],
        decreases 8 - i,
    {
        out[i] = src[start + i];
        i = i + 1;
    }
    assert(out@ =~= src@.subrange(start as int, start + 8));
    out
}

/// Reads the unsigned little-endian number in eight bytes.
pub fn read_le_u64(b: &[u8; 8]) -> (r: u64)
    ensures
        r == le_u64(b@),
{
    let s = b.as_slice();
    let mut v: u64 = s[7] as u64;
    v = v * 256 + s[6] as u64;
    v = v * 256 + s[5] as u64;
    v = v * 256 + s[4] as u64;
    v = v * 256 + s[3] as u64;
    v = v * 256 + s[2] as u64;
    v = v * 256 + s[1] as u64;
    v = v * 256 + s[0] as u64;
    v
}

/// Reads the unsigned little-endian number in the two bytes of `data` from `at`.
fn read_le_u16(data: &[u8], at: usize) -> (r: u16)
    requires
        at + 2 <= data@.len(),
    ensures
        r == le_u16(data@, at as int),
{
    data[at] as u16 + 256 * (data[at + 1] as u16)
}

impl ScaledUiAmountConfig {
    /// Whether the scheduled multiplier has taken effect at `now`: its timestamp is set
    /// (positive) and has been reached.
    pub open spec fn new_multiplier_in_effect(self, now: i64) -> bool {
        let ts = le_i64(self.new_multiplier_effective_timestamp@);
        ts > 0 && now >= ts
    }

    /// Deserializes a ScaledUiAmountConfig from a 56-byte slice; any other length is refused.
    pub fn from_bytes(bytes: &[u8]) -> (r: Result<Self, StripVaultError>)
        ensures
            r is Err <==> bytes@.len() != SCALED_UI_CONFIG_LEN,
            r is Err ==> r == Err::<Self, StripVaultError>(StripVaultError::InvalidScaledUiAmountConfig),
            r matches Ok(c) ==> config_matches(c, bytes@),
    {
        if bytes.len() != SCALED_UI_CONFIG_LEN {
            return Err(StripVaultError::InvalidScaledUiAmountConfig);
        }
        let authority = copy_32(bytes, 0);
        let multiplier = copy_8(bytes, 32);
        let new_multiplier_effective_timestamp = copy_8(bytes, 40);
        let new_multiplier = copy_8(bytes, 48);
        Ok(Self { authority, multiplier, new_multiplier_effective_timestamp, new_multiplier })
    }

    /// The little-endian IEEE-754 bytes of the multiplier that is active at
    /// `current_unix_timestamp`: the scheduled one once its positive effective timestamp has
    /// been reached, the current one otherwise.
    pub fn get_effective_multiplier_bytes(&self, current_unix_timestamp: i64) -> (r: [u8; 8])
        ensures
            r == (if self.new_multiplier_in_effect(current_unix_timestamp) {
                self.new_multiplier
            } else {
                self.multiplier
            }),
    {
        let raw = read_le_u64(&self.new_multiplier_effective_timestamp);
        if raw > 0 && raw <= 0x7fff_ffff_ffff_ffff && current_unix_timestamp >= raw as i64 {
            self.new_multiplier
        } else {
            self.multiplier
        }
    }
}

/// Unpacks the decimals and ScaledUiAmountConfig from a Token-2022 Mint account data slice:
/// the decimals byte of the base mint and the first complete ScaledUiAmount extension entry of
/// the expected length in the TLV area.
pub fn unpack_scaled_ui_mint(mint_data: &[u8]) -> (r: Result<(u8, ScaledUiAmountConfig), StripVaultError>)
    ensures
        r is Ok <==> scaled_ui_config_offset(mint_data@) is Some,
        r is Err ==> r == Err::<(u8, ScaledUiAmountConfig), StripVaultError>(
            StripVaultError::InvalidScaledUiAmountConfig,
        ),
        r matches Ok((d, c)) ==> {
            let at = scaled_ui_config_offset(mint_data@).unwrap();
            &&& d == mint_data@[MINT_DECIMALS_OFFSET as int]
            &&& config_matches(c, mint_data@.subrange(at, at + SCALED_UI_CONFIG_LEN))
        },
{
    if mint_data.len() < MINT_EXTENSIONS_OFFSET {
        return Err(StripVaultError::InvalidScaledUiAmountConfig);
    }
    let decimals = mint_data[MINT_DECIMALS_OFFSET];
    let len = mint_data.len();
    let mut offset: usize = MINT_EXTENSIONS_OFFSET;
    while offset <= len && len - offset >= 4
        invariant
            len == mint_data@.len(),
            len >= MINT_EXTENSIONS_OFFSET,
            MINT_EXTENSIONS_OFFSET <= offset,
            decimals == mint_data@[MINT_DECIMALS_OFFSET as int],
            scaled_ui_config_offset(mint_data@) == tlv_scan(mint_data@, offset as int),
        decreases len - offset,
    {
        let header = offset;
        let ext_type = read_le_u16(mint_data, offset);
        let ext_len = read_le_u16(mint_data, offset + 2) as usize;
        offset = offset + 4;
        if ext_len > len - offset {
            return Err(StripVaultError::InvalidScaledUiAmountConfig);
        }
        if ext_type == SCALED_UI_AMOUNT_EXTENSION_TYPE && ext_len == SCALED_UI_CONFIG_LEN {
            let config_bytes = slice_range(mint_data, offset, offset + SCALED_UI_CONFIG_LEN);
            let config = match ScaledUiAmountConfig::from_bytes(config_bytes) {
                Ok(c) => c,
                Err(e) => return Err(e),
            };
            assert(scaled_ui_config_offset(mint_data@) == Some(offset as int));
            return Ok((decimals, config));
        }
        offset = offset + ext_len;
        assert(tlv_scan(mint_data@, header as int) == tlv_scan(mint_data@, offset as int));
    }
    Err(StripVaultError::InvalidScaledUiAmountConfig)
}

/// The bytes of `data` from `start` up to `end`.
fn slice_range(data: &[u8], start: usize, end: usize) -> (r: &[u8])
    requires
        start <= end <= data@.len(),
    ensures
        r@ == data@.subrange(start as int, end as int),
{
    let (head, _) = data.split_at(end);
    let (_, tail) = head.split_at(start);
    tail
}

} // verus!
