//! The CAN signal decoder.
//!
//! A DBC description names, for every message id, the signals laid out in the
//! frame: where each starts, how many bits it takes, its byte order, whether
//! it is signed, its scaling, and an optional table mapping raw codes to
//! text.  The types here carry that description as plain values; decoding a
//! signal out of a frame is a pure function over them.
//!
//! Scale factors and offsets appear in a DBC as decimal numbers.  Integral
//! ones are carried exactly in `factor` and `offset`; `fractional_scale`
//! marks a signal whose factor or offset is not an integer, in which case the
//! decoded value keeps the raw bit window and the surrounding program applies
//! the floating-point scaling.

use vstd::prelude::*;
use crate::text::{dec_str, str_eq, u64_to_dec_string};
use crate::values::{CanValue, FloatEnc, ValueModel};

verus! {

/// Byte order of a signal inside the frame.
#[derive(Clone, Copy, PartialEq, Eq, Structural, Debug)]
pub enum ByteOrd {
    Little,
    Big,
}

/// The multiplex role of a signal.
#[derive(Clone, Copy, PartialEq, Eq, Structural, Debug)]
pub enum MuxRole {
    Plain,
    Multiplexor,
    Multiplexed(u64),
    MultiplexorAndMultiplexed(u64),
}

/// The extended value type a DBC may state for a signal.
#[derive(Clone, Copy, PartialEq, Eq, Structural, Debug)]
pub enum ExtType {
    Integer,
    Float32,
    Float64,
}

/// The resolved type of a signal's value.
#[derive(Clone, Copy, PartialEq, Eq, Structural, Debug)]
pub enum SignalValueType {
    Float,
    Signed,
    Unsigned,
    Double,
    Text,
}

/// One row of a value-description table: a raw code and its label.
pub struct ValueDesc {
    pub key: u64,
    pub text: String,
}

/// The layout and scaling of one signal.
pub struct SignalSpec {
    pub name: String,
    pub start_bit: u64,
    pub signal_size: u64,
    pub byte_order: ByteOrd,
    pub signed: bool,
    pub factor: i64,
    pub offset: i64,
    pub fractional_scale: bool,
    pub unit: String,
    pub mux: MuxRole,
    pub value_descs: Option<Vec<ValueDesc>>,
}

impl SignalSpec {
    /// The bit window must lie inside a 64-bit frame.
    pub open spec fn wf(&self) -> bool {
        &&& self.start_bit < 64
        &&& 0 < self.signal_size <= 64
    }
}

/// One message of the DBC: its 32-bit id and its signals in declaration
/// order.
pub struct MessageSpec {
    pub id: u32,
    pub signals: Vec<SignalSpec>,
}

impl MessageSpec {
    pub open spec fn wf(&self) -> bool {
        forall|i: int| 0 <= i < self.signals@.len() ==> (#[trigger] self.signals@[i]).wf()
    }
}

/// One row of the DBC-wide extended-value-type list.
pub struct ExtTypeEntry {
    pub signal_name: String,
    pub ext: ExtType,
}

/// The whole decoded DBC description.
pub struct DbcModel {
    pub messages: Vec<MessageSpec>,
    pub ext_types: Vec<ExtTypeEntry>,
}

impl DbcModel {
    pub open spec fn wf(&self) -> bool {
        forall|i: int| 0 <= i < self.messages@.len() ==> (#[trigger] self.messages@[i]).wf()
    }
}

/// The value of the first `n` payload bytes read little-endian into a 64-bit
/// frame, missing bytes reading as zero.
pub open spec fn le_acc(data: Seq<u8>, n: int) -> u64
    decreases n,
{
    if n <= 0 {
        0u64
    } else {
        le_acc(data, n - 1) | ((data[n - 1] as u64) << ((8 * (n - 1)) as u64))
    }
}

/// The value of the first `n` payload bytes read big-endian into a 64-bit
/// frame, missing bytes reading as zero.
pub open spec fn be_acc(data: Seq<u8>, n: int) -> u64
    decreases n,
{
    if n <= 0 {
        0u64
    } else {
        be_acc(data, n - 1) | ((data[n - 1] as u64) << ((8 * (8 - n)) as u64))
    }
}

/// The 64-bit frame integer: the payload in an 8-byte buffer padded with
/// trailing zeros, read with the signal's byte order.
pub open spec fn spec_frame_value(data: Seq<u8>, order: ByteOrd) -> u64 {
    match order {
        ByteOrd::Little => le_acc(data, data.len() as int),
        ByteOrd::Big => be_acc(data, data.len() as int),
    }
}

/// Reads the payload into a 64-bit frame integer with the given byte order.
pub fn frame_value(data: &[u8], order: ByteOrd) -> (r: u64)
    requires
        data@.len() <= 8,
    ensures
        r == spec_frame_value(data@, order),
{
    let n = data.len();
    let mut r: u64 = 0;
    match order {
        ByteOrd::Little => {
            let mut i: usize = 0;
            while i < n
                invariant
                    n == data@.len() <= 8,
                    0 <= i <= n,
                    r == le_acc(data@, i as int),
                decreases n - i,
            {
                r = r | ((data[i] as u64) << ((8 * i) as u64));
                i += 1;
            }
        },
        ByteOrd::Big => {
            let mut i: usize = 0;
            while i < n
                invariant
                    n == data@.len() <= 8,
                    0 <= i <= n,
                    r == be_acc(data@, i as int),
                decreases n - i,
            {
                r = r | ((data[i] as u64) << ((8 * (7 - i)) as u64));
                i += 1;
            }
        },
    }
    r
}

/// The raw bit window of a signal: the whole frame when the signal takes all
/// 64 bits, else the masked shift.
pub open spec fn spec_extract(frame: u64, start_bit: u64, signal_size: u64) -> u64 {
    if signal_size == 64 {
        frame
    } else {
        (frame >> start_bit) & (((1u64 << signal_size) - 1) as u64)
    }
}

/// Extracts a signal's raw bit window from the frame integer.  A signal of
/// the full 64 bits bypasses the shift and mask and is the frame itself.
pub fn get_signal_value(frame_value: u64, start_bit: u64, signal_size: u64) -> (r: u64)
    requires
        start_bit < 64,
        0 < signal_size <= 64,
    ensures
        r == spec_extract(frame_value, start_bit, signal_size),
{
    if signal_size == 64 {
        return frame_value;
    }
    assert(1u64 << signal_size >= 1) by (bit_vector)
        requires
            signal_size < 64,
    ;
    let bit_mask: u64 = (1u64 << signal_size) - 1;
    (frame_value >> start_bit) & bit_mask
}

/// The extended value type the DBC-wide list states for a signal name: the
/// first matching row wins, and an absent row means a plain integer.
pub open spec fn spec_ext_lookup(exts: Seq<ExtTypeEntry>, name: Seq<char>) -> ExtType
    decreases exts.len(),
{
    if exts.len() == 0 {
        ExtType::Integer
    } else if exts[0].signal_name@ == name {
        exts[0].ext
    } else {
        spec_ext_lookup(exts.drop_first(), name)
    }
}

/// The resolved type of a signal's value: text when a value-description
/// table exists, else by the extended value type and the signedness.
pub open spec fn spec_value_type(s: SignalSpec, exts: Seq<ExtTypeEntry>) -> SignalValueType {
    if s.value_descs is Some {
        SignalValueType::Text
    } else {
        match spec_ext_lookup(exts, s.name@) {
            ExtType::Float32 => SignalValueType::Float,
            ExtType::Float64 => SignalValueType::Double,
            ExtType::Integer => if s.signed {
                SignalValueType::Signed
            } else {
                SignalValueType::Unsigned
            },
        }
    }
}

/// Resolves the type of a signal's value.
pub fn get_signal_value_type(s: &SignalSpec, dbc: &DbcModel) -> (r: Option<SignalValueType>)
    ensures
        r == Some(spec_value_type(*s, dbc.ext_types@)),
{
    if s.value_descs.is_some() {
        return Some(SignalValueType::Text);
    }
    let exts = &dbc.ext_types;
    let n = exts.len();
    let mut i: usize = 0;
    let mut ext: ExtType = ExtType::Integer;
    let mut found: bool = false;
    proof {
        assert(exts@.skip(0) =~= exts@);
    }
    while i < n && !found
        invariant
            n == exts@.len(),
            0 <= i <= n,
            !found ==> spec_ext_lookup(exts@, s.name@) == spec_ext_lookup(
                exts@.skip(i as int),
                s.name@,
            ),
            !found ==> ext == ExtType::Integer,
            found ==> ext == spec_ext_lookup(exts@, s.name@),
        decreases n - i + (if found { 0int } else { 1int }),
    {
        if str_eq(exts[i].signal_name.as_str(), s.name.as_str()) {
            ext = exts[i].ext;
            found = true;
            proof {
                assert(exts@.skip(i as int)[0] == exts@[i as int]);
                assert(spec_ext_lookup(exts@.skip(i as int), s.name@) == exts@[i as int].ext);
            }
        } else {
            proof {
                assert(exts@.skip(i as int)[0] == exts@[i as int]);
                assert(exts@.skip(i as int).drop_first() =~= exts@.skip(i as int + 1));
            }
            i += 1;
        }
    }
    let vt = match ext {
        ExtType::Float32 => SignalValueType::Float,
        ExtType::Float64 => SignalValueType::Double,
        ExtType::Integer => if s.signed {
            SignalValueType::Signed
        } else {
            SignalValueType::Unsigned
        },
    };
    Some(vt)
}

/// The label the value-description table gives a raw code: the first row
/// with that key, if any.
pub open spec fn spec_desc_lookup(descs: Seq<ValueDesc>, raw: u64) -> Option<Seq<char>>
    decreases descs.len(),
{
    if descs.len() == 0 {
        None
    } else if descs[0].key == raw {
        Some(descs[0].text@)
    } else {
        spec_desc_lookup(descs.drop_first(), raw)
    }
}

/// What decoding a text-typed signal yields: the table's label for the raw
/// code, or the code rendered in decimal when the table has no such key.
pub open spec fn spec_get_string(raw: u64, descs: Option<Seq<ValueDesc>>) -> Option<ValueModel> {
    match descs {
        Option::None => Option::None,
        Option::Some(d) => match spec_desc_lookup(d, raw) {
            Option::Some(t) => Option::Some(ValueModel::Str(t)),
            Option::None => Option::Some(ValueModel::Str(dec_str(raw as nat))),
        },
    }
}

/// The view of an optional decoded value.
pub open spec fn opt_view(r: Option<CanValue>) -> Option<ValueModel> {
    match r {
        Option::None => Option::None,
        Option::Some(v) => Option::Some(v@),
    }
}

/// Decodes a text-typed signal against its value-description table.
pub fn get_string(signal_value: u64, descs: Option<&Vec<ValueDesc>>) -> (r: Option<CanValue>)
    ensures
        opt_view(r) == spec_get_string(
            signal_value,
            match descs {
                Option::Some(d) => Option::Some(d@),
                Option::None => Option::<Seq<ValueDesc>>::None,
            },
        ),
{
    let d = match descs {
        Some(d) => d,
        None => {
            return None;
        },
    };
    let n = d.len();
    let mut i: usize = 0;
    proof {
        assert(d@.skip(0) =~= d@);
    }
    while i < n
        invariant
            descs == Option::Some(d),
            n == d@.len(),
            0 <= i <= n,
            spec_desc_lookup(d@, signal_value) == spec_desc_lookup(
                d@.skip(i as int),
                signal_value,
            ),
        decreases n - i,
    {
        proof {
            assert(d@.skip(i as int)[0] == d@[i as int]);
        }
        if d[i].key == signal_value {
            proof {
                assert(spec_desc_lookup(d@.skip(i as int), signal_value) == Some(
                    d@[i as int].text@,
                ));
            }
            return Some(CanValue::Str(d[i].text.clone()));
        }
        proof {
            assert(d@.skip(i as int).drop_first() =~= d@.skip(i as int + 1));
        }
        i += 1;
    }
    Some(CanValue::Str(u64_to_dec_string(signal_value)))
}

/// Decodes a 32-bit float signal: the raw window is kept for the program to
/// reinterpret and scale.
pub fn get_float(signal_value: u64) -> (r: Option<CanValue>)
    ensures
        opt_view(r) == Some(ValueModel::F64Raw(FloatEnc::Bits32, signal_value)),
{
    Some(CanValue::F64Raw(FloatEnc::Bits32, signal_value))
}

/// Decodes a 64-bit float signal: the raw window is kept for the program to
/// reinterpret and scale.
pub fn get_double(signal_value: u64) -> (r: Option<CanValue>)
    ensures
        opt_view(r) == Some(ValueModel::F64Raw(FloatEnc::Bits64, signal_value)),
{
    Some(CanValue::F64Raw(FloatEnc::Bits64, signal_value))
}

/// What scaling an unsigned raw code yields: with integral scaling, the
/// code times the factor plus the offset, in 64-bit modular arithmetic.
pub open spec fn spec_scale_unsigned(raw: u64, factor: i64, offset: i64, fractional: bool) -> ValueModel {
    if fractional {
        ValueModel::F64Raw(FloatEnc::Unsigned, raw)
    } else {
        ValueModel::U64((((raw * (factor as u64)) % 0x1_0000_0000_0000_0000 + (offset as u64))
            % 0x1_0000_0000_0000_0000) as u64)
    }
}

/// Scales an unsigned raw code.
pub fn get_unsigned_number(signal_value: u64, factor: i64, offset: i64, fractional: bool) -> (r:
    Option<CanValue>)
    ensures
        opt_view(r) == Some(spec_scale_unsigned(signal_value, factor, offset, fractional)),
{
    if fractional {
        return Some(CanValue::F64Raw(FloatEnc::Unsigned, signal_value));
    }
    let v = signal_value.wrapping_mul(factor as u64).wrapping_add(offset as u64);
    Some(CanValue::U64(v))
}

/// The 64-bit sign extension of a raw code of `size` bits, as a bit pattern.
pub open spec fn spec_sign_extend(raw: u64, size: u64) -> u64 {
    if size == 64 {
        raw
    } else if raw & (1u64 << ((size - 1) as u64)) != 0 {
        (u64::MAX << size) | raw
    } else {
        raw
    }
}

/// Whether the raw code's sign bit (bit `size - 1`) is set.
pub open spec fn spec_sign_bit(raw: u64, size: u64) -> bool {
    raw & (1u64 << ((size - 1) as u64)) != 0
}

/// What scaling a signed raw code yields: the code is sign-extended to 64
/// bits; with integral scaling the result is the extension times the factor
/// plus the offset in 64-bit modular arithmetic, read as a signed integer.
pub open spec fn spec_scale_signed(raw: u64, size: u64, factor: i64, offset: i64, fractional: bool) -> ValueModel {
    if spec_sign_bit(raw, size) {
        let ext = spec_sign_extend(raw, size);
        if fractional {
            ValueModel::F64Raw(FloatEnc::Signed, ext)
        } else {
            ValueModel::I64(((((ext * (factor as u64)) % 0x1_0000_0000_0000_0000 + (offset
                as u64)) % 0x1_0000_0000_0000_0000) as u64) as i64)
        }
    } else {
        if fractional {
            ValueModel::F64Raw(FloatEnc::Unsigned, raw)
        } else {
            ValueModel::I64(((((raw * (factor as u64)) % 0x1_0000_0000_0000_0000 + (offset
                as u64)) % 0x1_0000_0000_0000_0000) as u64) as i64)
        }
    }
}

/// Scales a signed raw code of `signal_length` bits.
pub fn get_signed_number(
    signal_value: u64,
    signal_length: u64,
    factor: i64,
    offset: i64,
    fractional: bool,
) -> (r: Option<CanValue>)
    requires
        0 < signal_length <= 64,
    ensures
        opt_view(r) == Some(
            spec_scale_signed(signal_value, signal_length, factor, offset, fractional),
        ),
{
    let signed_mask: u64 = 1u64 << (signal_length - 1);
    let is_negative = signal_value & signed_mask != 0;
    if is_negative {
        let ext: u64 = if signal_length == 64 {
            signal_value
        } else {
            (u64::MAX << signal_length) | signal_value
        };
        if fractional {
            Some(CanValue::F64Raw(FloatEnc::Signed, ext))
        } else {
            let v = ext.wrapping_mul(factor as u64).wrapping_add(offset as u64);
            Some(CanValue::I64(v as i64))
        }
    } else {
        if fractional {
            Some(CanValue::F64Raw(FloatEnc::Unsigned, signal_value))
        } else {
            let v = signal_value.wrapping_mul(factor as u64).wrapping_add(offset as u64);
            Some(CanValue::I64(v as i64))
        }
    }
}

/// Whether the signal is a pure multiplexor.
pub fn is_multiplexor(s: &SignalSpec) -> (r: bool)
    ensures
        r == (s.mux is Multiplexor),
{
    match s.mux {
        MuxRole::Multiplexor => true,
        MuxRole::Multiplexed(_) => false,
        MuxRole::MultiplexorAndMultiplexed(_) => false,
        MuxRole::Plain => false,
    }
}

/// Whether the signal is a purely multiplexed signal.
pub fn is_multiplexed(s: &SignalSpec) -> (r: bool)
    ensures
        r == (s.mux is Multiplexed),
{
    match s.mux {
        MuxRole::Multiplexor => false,
        MuxRole::Multiplexed(_) => true,
        MuxRole::MultiplexorAndMultiplexed(_) => false,
        MuxRole::Plain => false,
    }
}

/// The multiplex index under which the signal is present.
pub open spec fn spec_multiplex_val(s: SignalSpec) -> u64 {
    match s.mux {
        MuxRole::Multiplexor => 0u64,
        MuxRole::Multiplexed(val) => val,
        MuxRole::MultiplexorAndMultiplexed(val) => val,
        MuxRole::Plain => 0u64,
    }
}

/// Reads the multiplex index of a multiplexed signal.
pub fn get_multiplex_val(s: &SignalSpec) -> (r: u64)
    ensures
        r == spec_multiplex_val(*s),
{
    match s.mux {
        MuxRole::Multiplexor => 0,
        MuxRole::Multiplexed(val) => val,
        MuxRole::MultiplexorAndMultiplexed(val) => val,
        MuxRole::Plain => 0,
    }
}

/// Unscaled round trip: a value below the signal's width, written at the
/// signal's start bit inside a frame, extracts and scales back to itself
/// when the factor is one and the offset zero.
pub proof fn lemma_unsigned_roundtrip(v: u64, start_bit: u64, signal_size: u64)
    requires
        start_bit < 64,
        0 < signal_size < 64,
        start_bit + signal_size <= 64,
        v < (1u64 << signal_size),
    ensures
        spec_extract((v << start_bit) as u64, start_bit, signal_size) == v,
        spec_scale_unsigned(v, 1i64, 0i64, false) == ValueModel::U64(v),
{
    assert((((v << start_bit) as u64) >> start_bit) & (((1u64 << signal_size) - 1) as u64) == v)
        by (bit_vector)
        requires
            start_bit < 64,
            0 < signal_size < 64,
            start_bit + signal_size <= 64,
            v < (1u64 << signal_size),
    ;
}

/// Sign extension with unit scaling: a signed signal whose sign bit is set
/// decodes to the signed integer whose bit pattern is the 64-bit sign
/// extension of the raw window.
pub proof fn lemma_signed_extension(raw: u64, signal_size: u64)
    requires
        0 < signal_size <= 64,
        spec_sign_bit(raw, signal_size),
    ensures
        spec_scale_signed(raw, signal_size, 1i64, 0i64, false) == ValueModel::I64(
            spec_sign_extend(raw, signal_size) as i64,
        ),
{
    let ext = spec_sign_extend(raw, signal_size);
    assert((((ext * ((1i64 as u64) as int)) % 0x1_0000_0000_0000_0000 + ((0i64 as u64) as int))
        % 0x1_0000_0000_0000_0000) == ext as int);
}

/// What decoding a signal out of a payload yields.
pub open spec fn spec_decode(s: SignalSpec, data: Seq<u8>, exts: Seq<ExtTypeEntry>) -> Option<
    ValueModel,
> {
    let frame = spec_frame_value(data, s.byte_order);
    let raw = spec_extract(frame, s.start_bit, s.signal_size);
    match spec_value_type(s, exts) {
        SignalValueType::Float => Some(ValueModel::F64Raw(FloatEnc::Bits32, raw)),
        SignalValueType::Double => Some(ValueModel::F64Raw(FloatEnc::Bits64, raw)),
        SignalValueType::Unsigned => Some(
            spec_scale_unsigned(raw, s.factor, s.offset, s.fractional_scale),
        ),
        SignalValueType::Signed => Some(
            spec_scale_signed(raw, s.signal_size, s.factor, s.offset, s.fractional_scale),
        ),
        SignalValueType::Text => spec_get_string(
            raw,
            match s.value_descs {
                Option::Some(d) => Option::Some(d@),
                Option::None => Option::<Seq<ValueDesc>>::None,
            },
        ),
    }
}

/// Decodes one signal out of a message payload.
pub fn get_can_signal_value(data: &[u8], s: &SignalSpec, dbc: &DbcModel) -> (r: Option<CanValue>)
    requires
        data@.len() <= 8,
        s.wf(),
    ensures
        opt_view(r) == spec_decode(*s, data@, dbc.ext_types@),
{
    let frame = frame_value(data, s.byte_order);
    let signal_value = get_signal_value(frame, s.start_bit, s.signal_size);
    match get_signal_value_type(s, dbc) {
        Some(SignalValueType::Float) => get_float(signal_value),
        Some(SignalValueType::Signed) => get_signed_number(
            signal_value,
            s.signal_size,
            s.factor,
            s.offset,
            s.fractional_scale,
        ),
        Some(SignalValueType::Unsigned) => get_unsigned_number(
            signal_value,
            s.factor,
            s.offset,
            s.fractional_scale,
        ),
        Some(SignalValueType::Double) => get_double(signal_value),
        Some(SignalValueType::Text) => get_string(signal_value, s.value_descs.as_ref()),
        None => None,
    }
}

} // verus!
