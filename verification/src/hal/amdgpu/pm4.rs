//! GFX10 PM4 command stream encoder and standard packet definitions.
use vstd::prelude::*;

verus! {

pub const PKT3_NOP: u32 = 0x10;

pub const PKT3_SET_BASE: u32 = 0x11;

pub const PKT3_CLEAR_STATE: u32 = 0x12;

pub const PKT3_DISPATCH_DIRECT: u32 = 0x15;

pub const PKT3_DISPATCH_INDIRECT: u32 = 0x16;

pub const PKT3_DRAW_INDEX_2: u32 = 0x27;

pub const PKT3_CONTEXT_CONTROL: u32 = 0x28;

pub const PKT3_INDEX_TYPE: u32 = 0x2A;

pub const PKT3_DRAW_INDEX_AUTO: u32 = 0x2D;

pub const PKT3_NUM_INSTANCES: u32 = 0x2F;

pub const PKT3_EVENT_WRITE: u32 = 0x46;

pub const PKT3_SET_CONFIG_REG: u32 = 0x68;

pub const PKT3_SET_CONTEXT_REG: u32 = 0x69;

pub const PKT3_SET_SH_REG: u32 = 0x76;

pub const PKT3_SET_UCONFIG_REG: u32 = 0x79;

pub const PKT3_SET_UCONFIG_REG_INDEX: u32 = 0x7A;

pub const PKT3_RELEASE_MEM: u32 = 0x49;

pub const PKT3_ACQUIRE_MEM: u32 = 0x58;

/// `EVENT_WRITE` event types (values of `VGT_EVENT_TYPE`).
///
/// The payload encoding is `EVENT_TYPE(x) | EVENT_INDEX(i << 8)`; index 0 is
/// the plain "flush, no timestamp destination" form.
pub const EVENT_CACHE_FLUSH_AND_INV_TS: u32 = 20;

pub const EVENT_FLUSH_AND_INV_CB_DATA: u32 = 45;

pub const SI_CONFIG_REG_OFFSET: u32 = 0x08000;

pub const SI_CONTEXT_REG_OFFSET: u32 = 0x28000;

pub const SI_SH_REG_OFFSET: u32 = 0x0B000;

pub const SI_UCONFIG_REG_OFFSET: u32 = 0x30000;

/// GFX10 header-only NOP: a NOP header with the special count 0x3fff.
pub const PM4_NOP_1DW: u32 = 0xffff_1000;

/// A type-3 packet header: opcode and the payload dword count minus one.
pub open spec fn packet3_header(op: u32, count_minus_one: u32) -> u32 {
    (0xc000_0000u32 | ((count_minus_one & 0x3FFF) << 16u32) | ((op & 0xFF) << 8u32)) as u32
}

/// A type-3 packet header: opcode and the payload dword count minus one.
#[verifier::when_used_as_spec(packet3_header)]
pub fn packet3(op: u32, count_minus_one: u32) -> (r: u32)
    ensures
        r == packet3_header(op, count_minus_one),
{
    0xc000_0000u32 | ((count_minus_one & 0x3FFF) << 16u32) | ((op & 0xFF) << 8u32)
}

/// The header-only NOP is the NOP packet with count 0x3fff.
pub proof fn lemma_nop_header()
    ensures
        PM4_NOP_1DW == packet3_header(PKT3_NOP, 0x3fff),
{
    assert(packet3_header(PKT3_NOP, 0x3fff) == 0xffff_1000u32) by (bit_vector);
}

/// A register's dword offset from its register space base.
pub open spec fn register_offset(byte_address: u32, base: u32) -> u32 {
    ((byte_address - base) as u32 >> 2u32) as u32
}

/// The dword selecting register `reg_dw`, with `idx` in bits 28..32.
pub open spec fn indexed_offset(reg_dw: u32, idx: u32) -> u32 {
    (reg_dw | ((idx & 0xF) << 28u32)) as u32
}

/// One register write of register space `op` whose base is `base`.
pub open spec fn register_write(op: u32, base: u32, byte_address: u32, value: u32) -> Seq<u32> {
    seq![packet3_header(op, 1), register_offset(byte_address, base), value]
}

/// A write of consecutive registers starting at `byte_address`.
pub open spec fn register_sequence(op: u32, base: u32, byte_address: u32, values: Seq<u32>) -> Seq<
    u32,
> {
    seq![
        packet3_header(op, (values.len() % 0x4000) as u32),
        register_offset(byte_address, base),
    ] + values
}

/// The payload of `EVENT_WRITE(event_type, index)`.
pub open spec fn event_payload(event_type: u32, index: u32) -> u32 {
    ((event_type & 0xFF) | ((index & 0xF) << 8u32)) as u32
}

/// The low 32 bits of a GPU address.
pub open spec fn low_dword(va: u64) -> u32 {
    (va % 0x1_0000_0000) as u32
}

/// The high 32 bits of a GPU address.
pub open spec fn high_dword(va: u64) -> u32 {
    (va / 0x1_0000_0000) as u32
}

/// The dwords of a `RELEASE_MEM` packet.
pub open spec fn release_mem_words(
    event_type: u32,
    event_index: u32,
    gcr_cntl: u32,
    dst_sel: u32,
    int_sel: u32,
    data_sel: u32,
    gpu_va: u64,
    data: u32,
) -> Seq<u32> {
    seq![
        packet3_header(PKT3_RELEASE_MEM, 6),
        ((event_type & 0xff) | ((event_index & 0xf) << 8u32) | ((gcr_cntl & 0xfffff) << 12u32)) as u32,
        (((dst_sel & 0x3) << 16u32) | ((int_sel & 0x7) << 24u32) | ((data_sel & 0x7) << 29u32)) as u32,
        low_dword(gpu_va),
        high_dword(gpu_va),
        data,
        0u32,
        0u32,
    ]
}

/// The number of NOPs `pad_to` appends to a stream of `len` dwords.
pub open spec fn padding(len: nat, align_dwords: nat) -> nat {
    if len % align_dwords == 0 {
        0
    } else {
        (align_dwords - len % align_dwords) as nat
    }
}

/// Dynamic buffer of PM4 dwords.
#[derive(Debug, Clone)]
pub struct Pm4 {
    pub dwords: Vec<u32>,
}

impl Default for Pm4 {
    fn default() -> (r: Self)
        ensures
            r.dwords@ == Seq::<u32>::empty(),
    {
        Pm4::new()
    }
}

impl Pm4 {
    pub fn new() -> (r: Self)
        ensures
            r.dwords@ == Seq::<u32>::empty(),
    {
        Pm4 { dwords: Vec::new() }
    }

    pub fn with_capacity(cap: usize) -> (r: Self)
        ensures
            r.dwords@ == Seq::<u32>::empty(),
    {
        Pm4 { dwords: Vec::with_capacity(cap) }
    }

    pub fn clear(&mut self)
        ensures
            final(self).dwords@ == Seq::<u32>::empty(),
    {
        self.dwords.clear();
    }

    pub fn len(&self) -> (r: usize)
        ensures
            r == self.dwords@.len(),
    {
        self.dwords.len()
    }

    pub fn is_empty(&self) -> (r: bool)
        ensures
            r == (self.dwords@.len() == 0),
    {
        self.dwords.len() == 0
    }

    pub fn push(&mut self, dw: u32)
        ensures
            final(self).dwords@ == old(self).dwords@.push(dw),
    {
        self.dwords.push(dw);
    }

    pub fn extend(&mut self, words: &[u32])
        ensures
            final(self).dwords@ == old(self).dwords@ + words@,
    {
        let ghost start = self.dwords@;
        let mut k: usize = 0;
        while k < words.len()
            invariant
                k <= words@.len(),
                self.dwords@ == start + words@.subrange(0, k as int),
            decreases words@.len() - k,
        {
            self.dwords.push(words[k]);
            assert(words@.subrange(0, k + 1) =~= words@.subrange(0, k as int).push(words@[k as int]));
            k = k + 1;
        }
        assert(words@.subrange(0, words@.len() as int) =~= words@);
    }

    pub fn set_context_reg(&mut self, reg_byte_addr: u32, val: u32)
        requires
            reg_byte_addr >= SI_CONTEXT_REG_OFFSET,
        ensures
            final(self).dwords@ == old(self).dwords@ + register_write(
                PKT3_SET_CONTEXT_REG,
                SI_CONTEXT_REG_OFFSET,
                reg_byte_addr,
                val,
            ),
    {
        let reg_dw = (reg_byte_addr - SI_CONTEXT_REG_OFFSET) >> 2;
        self.dwords.push(packet3(PKT3_SET_CONTEXT_REG, 1));
        self.dwords.push(reg_dw);
        self.dwords.push(val);
        assert(self.dwords@ =~= old(self).dwords@ + register_write(
            PKT3_SET_CONTEXT_REG,
            SI_CONTEXT_REG_OFFSET,
            reg_byte_addr,
            val,
        ));
    }

    pub fn set_context_reg_seq(&mut self, start_byte_addr: u32, vals: &[u32])
        requires
            start_byte_addr >= SI_CONTEXT_REG_OFFSET,
        ensures
            final(self).dwords@ == old(self).dwords@ + register_sequence(
                PKT3_SET_CONTEXT_REG,
                SI_CONTEXT_REG_OFFSET,
                start_byte_addr,
                vals@,
            ),
    {
        let reg_dw = (start_byte_addr - SI_CONTEXT_REG_OFFSET) >> 2;
        self.dwords.push(packet3(PKT3_SET_CONTEXT_REG, (vals.len() % 0x4000) as u32));
        self.dwords.push(reg_dw);
        self.extend(vals);
        assert(self.dwords@ =~= old(self).dwords@ + register_sequence(
            PKT3_SET_CONTEXT_REG,
            SI_CONTEXT_REG_OFFSET,
            start_byte_addr,
            vals@,
        ));
    }

    pub fn set_context_reg_idx(&mut self, reg_byte_addr: u32, idx: u32, val: u32)
        requires
            reg_byte_addr >= SI_CONTEXT_REG_OFFSET,
        ensures
            final(self).dwords@ == old(self).dwords@ + seq![
                packet3_header(PKT3_SET_CONTEXT_REG, 1),
                indexed_offset(register_offset(reg_byte_addr, SI_CONTEXT_REG_OFFSET), idx),
                val,
            ],
    {
        let reg_dw = (reg_byte_addr - SI_CONTEXT_REG_OFFSET) >> 2;
        self.dwords.push(packet3(PKT3_SET_CONTEXT_REG, 1));
        // Multi-dword registers select their dword through the high bits of the
        // register offset, like SET_UCONFIG_REG_INDEX.
        self.dwords.push(reg_dw | ((idx & 0xF) << 28));
        self.dwords.push(val);
        assert(self.dwords@ =~= old(self).dwords@ + seq![
            packet3_header(PKT3_SET_CONTEXT_REG, 1),
            indexed_offset(register_offset(reg_byte_addr, SI_CONTEXT_REG_OFFSET), idx),
            val,
        ]);
    }

    pub fn set_sh_reg(&mut self, reg_byte_addr: u32, val: u32)
        requires
            reg_byte_addr >= SI_SH_REG_OFFSET,
        ensures
            final(self).dwords@ == old(self).dwords@ + register_write(
                PKT3_SET_SH_REG,
                SI_SH_REG_OFFSET,
                reg_byte_addr,
                val,
            ),
    {
        let reg_dw = (reg_byte_addr - SI_SH_REG_OFFSET) >> 2;
        self.dwords.push(packet3(PKT3_SET_SH_REG, 1));
        self.dwords.push(reg_dw);
        self.dwords.push(val);
        assert(self.dwords@ =~= old(self).dwords@ + register_write(
            PKT3_SET_SH_REG,
            SI_SH_REG_OFFSET,
            reg_byte_addr,
            val,
        ));
    }

    pub fn set_sh_reg_seq(&mut self, start_byte_addr: u32, vals: &[u32])
        requires
            start_byte_addr >= SI_SH_REG_OFFSET,
        ensures
            final(self).dwords@ == old(self).dwords@ + register_sequence(
                PKT3_SET_SH_REG,
                SI_SH_REG_OFFSET,
                start_byte_addr,
                vals@,
            ),
    {
        let reg_dw = (start_byte_addr - SI_SH_REG_OFFSET) >> 2;
        self.dwords.push(packet3(PKT3_SET_SH_REG, (vals.len() % 0x4000) as u32));
        self.dwords.push(reg_dw);
        self.extend(vals);
        assert(self.dwords@ =~= old(self).dwords@ + register_sequence(
            PKT3_SET_SH_REG,
            SI_SH_REG_OFFSET,
            start_byte_addr,
            vals@,
        ));
    }

    pub fn set_uconfig_reg(&mut self, reg_byte_addr: u32, val: u32)
        requires
            reg_byte_addr >= SI_UCONFIG_REG_OFFSET,
        ensures
            final(self).dwords@ == old(self).dwords@ + register_write(
                PKT3_SET_UCONFIG_REG,
                SI_UCONFIG_REG_OFFSET,
                reg_byte_addr,
                val,
            ),
    {
        let reg_dw = (reg_byte_addr - SI_UCONFIG_REG_OFFSET) >> 2;
        self.dwords.push(packet3(PKT3_SET_UCONFIG_REG, 1));
        self.dwords.push(reg_dw);
        self.dwords.push(val);
        assert(self.dwords@ =~= old(self).dwords@ + register_write(
            PKT3_SET_UCONFIG_REG,
            SI_UCONFIG_REG_OFFSET,
            reg_byte_addr,
            val,
        ));
    }

    pub fn set_uconfig_reg_idx(&mut self, reg_byte_addr: u32, idx: u32, val: u32)
        requires
            reg_byte_addr >= SI_UCONFIG_REG_OFFSET,
        ensures
            final(self).dwords@ == old(self).dwords@ + seq![
                packet3_header(PKT3_SET_UCONFIG_REG_INDEX, 1),
                indexed_offset(register_offset(reg_byte_addr, SI_UCONFIG_REG_OFFSET), idx),
                val,
            ],
    {
        let reg_dw = (reg_byte_addr - SI_UCONFIG_REG_OFFSET) >> 2;
        self.dwords.push(packet3(PKT3_SET_UCONFIG_REG_INDEX, 1));
        self.dwords.push(reg_dw | ((idx & 0xF) << 28));
        self.dwords.push(val);
        assert(self.dwords@ =~= old(self).dwords@ + seq![
            packet3_header(PKT3_SET_UCONFIG_REG_INDEX, 1),
            indexed_offset(register_offset(reg_byte_addr, SI_UCONFIG_REG_OFFSET), idx),
            val,
        ]);
    }

    pub fn context_control(&mut self)
        ensures
            final(self).dwords@ == old(self).dwords@ + seq![
                packet3_header(PKT3_CONTEXT_CONTROL, 1),
                0x80000000u32,
                0x80000000u32,
            ],
    {
        self.dwords.push(packet3(PKT3_CONTEXT_CONTROL, 1));
        self.dwords.push(0x80000000);  // S_281_UPDATE_LOAD_ENABLES(1)
        self.dwords.push(0x80000000);  // S_282_UPDATE_SHADOW_ENABLES(1)
        assert(self.dwords@ =~= old(self).dwords@ + seq![
            packet3_header(PKT3_CONTEXT_CONTROL, 1),
            0x80000000u32,
            0x80000000u32,
        ]);
    }

    pub fn clear_state(&mut self)
        ensures
            final(self).dwords@ == old(self).dwords@ + seq![packet3_header(PKT3_CLEAR_STATE, 0), 0u32],
    {
        self.dwords.push(packet3(PKT3_CLEAR_STATE, 0));
        self.dwords.push(0);
        assert(self.dwords@ =~= old(self).dwords@ + seq![
            packet3_header(PKT3_CLEAR_STATE, 0),
            0u32,
        ]);
    }

    pub fn num_instances(&mut self, count: u32)
        ensures
            final(self).dwords@ == old(self).dwords@ + seq![
                packet3_header(PKT3_NUM_INSTANCES, 0),
                count,
            ],
    {
        self.dwords.push(packet3(PKT3_NUM_INSTANCES, 0));
        self.dwords.push(count);
        assert(self.dwords@ =~= old(self).dwords@ + seq![
            packet3_header(PKT3_NUM_INSTANCES, 0),
            count,
        ]);
    }

    /// `DRAW_INDEX_AUTO(count, DI_SRC_SEL_AUTO_INDEX)`.
    pub fn draw_index_auto(&mut self, count: u32)
        ensures
            final(self).dwords@ == old(self).dwords@ + seq![
                packet3_header(PKT3_DRAW_INDEX_AUTO, 1),
                count,
                2u32,
            ],
    {
        self.dwords.push(packet3(PKT3_DRAW_INDEX_AUTO, 1));
        self.dwords.push(count);
        self.dwords.push(0x00000002);  // V_0287F0_DI_SRC_SEL_AUTO_INDEX
        assert(self.dwords@ =~= old(self).dwords@ + seq![
            packet3_header(PKT3_DRAW_INDEX_AUTO, 1),
            count,
            2u32,
        ]);
    }

    /// `DRAW_INDEX_2(max_size, va_lo, va_hi, count, DI_SRC_SEL_DMA)`.
    pub fn draw_index_2(&mut self, max_size: u32, va: u64, count: u32)
        ensures
            final(self).dwords@ == old(self).dwords@ + seq![
                packet3_header(PKT3_DRAW_INDEX_2, 4),
                max_size,
                low_dword(va),
                high_dword(va),
                count,
                0u32,
            ],
    {
        self.dwords.push(packet3(PKT3_DRAW_INDEX_2, 4));
        self.dwords.push(max_size);
        self.dwords.push((va % 0x1_0000_0000) as u32);
        self.dwords.push((va / 0x1_0000_0000) as u32);
        self.dwords.push(count);
        self.dwords.push(0x00000000);  // V_0287F0_DI_SRC_SEL_DMA
        assert(self.dwords@ =~= old(self).dwords@ + seq![
            packet3_header(PKT3_DRAW_INDEX_2, 4),
            max_size,
            low_dword(va),
            high_dword(va),
            count,
            0u32,
        ]);
    }

    /// `EVENT_WRITE(event_type, index)`: flushes/idles the pipeline stages
    /// named by `event_type`. `index` 0 performs the flush without writing a
    /// timestamp to memory.
    pub fn event_write(&mut self, event_type: u32, index: u32)
        ensures
            final(self).dwords@ == old(self).dwords@ + seq![
                packet3_header(PKT3_EVENT_WRITE, 0),
                event_payload(event_type, index),
            ],
    {
        self.dwords.push(packet3(PKT3_EVENT_WRITE, 0));
        self.dwords.push((event_type & 0xFF) | ((index & 0xF) << 8));
        assert(self.dwords@ =~= old(self).dwords@ + seq![
            packet3_header(PKT3_EVENT_WRITE, 0),
            event_payload(event_type, index),
        ]);
    }

    /// `RELEASE_MEM` with EOP fence and cache flush/invalidation: a 7-dword
    /// payload (PKT3_RELEASE_MEM, count 6).
    pub fn release_mem(
        &mut self,
        event_type: u32,
        event_index: u32,
        gcr_cntl: u32,
        dst_sel: u32,
        int_sel: u32,
        data_sel: u32,
        gpu_va: u64,
        data: u32,
    )
        ensures
            final(self).dwords@ == old(self).dwords@ + release_mem_words(
                event_type,
                event_index,
                gcr_cntl,
                dst_sel,
                int_sel,
                data_sel,
                gpu_va,
                data,
            ),
    {
        self.dwords.push(packet3(PKT3_RELEASE_MEM, 6));
        let w0 = (event_type & 0xff) | ((event_index & 0xf) << 8) | ((gcr_cntl & 0xfffff) << 12);
        let w1 = ((dst_sel & 0x3) << 16) | ((int_sel & 0x7) << 24) | ((data_sel & 0x7) << 29);
        self.dwords.push(w0);
        self.dwords.push(w1);
        self.dwords.push((gpu_va % 0x1_0000_0000) as u32);
        self.dwords.push((gpu_va / 0x1_0000_0000) as u32);
        self.dwords.push(data);
        self.dwords.push(0);  // immediate data hi
        self.dwords.push(0);  // unused
        assert(self.dwords@ =~= old(self).dwords@ + release_mem_words(
            event_type,
            event_index,
            gcr_cntl,
            dst_sel,
            int_sel,
            data_sel,
            gpu_va,
            data,
        ));
    }

    /// Pads to a multiple of `align_dwords` with header-only NOP packets.
    pub fn pad_to(&mut self, align_dwords: usize)
        requires
            align_dwords > 0,
        ensures
            final(self).dwords@ == old(self).dwords@ + Seq::new(
                padding(old(self).dwords@.len(), align_dwords as nat),
                |i: int| PM4_NOP_1DW,
            ),
    {
        let rem = self.dwords.len() % align_dwords;
        if rem == 0 {
            assert(self.dwords@ =~= old(self).dwords@ + Seq::new(0, |i: int| PM4_NOP_1DW));
            return ;
        }
        let pad = align_dwords - rem;
        let mut k: usize = 0;
        while k < pad
            invariant
                k <= pad,
                self.dwords@ == old(self).dwords@ + Seq::new(k as nat, |i: int| PM4_NOP_1DW),
            decreases pad - k,
        {
            self.dwords.push(PM4_NOP_1DW);
            assert(old(self).dwords@ + Seq::new((k + 1) as nat, |i: int| PM4_NOP_1DW) =~= (
            old(self).dwords@ + Seq::new(k as nat, |i: int| PM4_NOP_1DW)).push(PM4_NOP_1DW));
            k = k + 1;
        }
    }
}

/// After padding, the stream length is a multiple of the alignment, the
/// stream keeps its prefix, and fewer than `align_dwords` NOPs were added.
pub proof fn lemma_padding_aligns(len: nat, align_dwords: nat)
    requires
        align_dwords > 0,
    ensures
        (len + padding(len, align_dwords)) % align_dwords == 0,
        padding(len, align_dwords) < align_dwords,
{
    if len % align_dwords != 0 {
        let q = len / align_dwords;
        let r = len % align_dwords;
        assert(len == q * align_dwords + r) by (nonlinear_arith)
            requires
                align_dwords > 0,
                q == len / align_dwords,
                r == len % align_dwords,
        ;
        assert(len + padding(len, align_dwords) == (q + 1) * align_dwords) by (nonlinear_arith)
            requires
                len == q * align_dwords + r,
                padding(len, align_dwords) == align_dwords - r,
        ;
        assert(((q + 1) * align_dwords) % align_dwords == 0) by (nonlinear_arith)
            requires
                align_dwords > 0,
                q >= 0,
        ;
    }
}

} // verus!
