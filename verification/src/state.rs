//! Architectural state of the emulated machine, its mathematical view,
//! and the construction / configuration operations.

use vstd::prelude::*;

verus! {

/// Width of the video buffer in pixels (hi-res).
pub const WIDTH: usize = 128;
/// Height of the video buffer in pixels (hi-res).
pub const HEIGHT: usize = 64;
/// Number of bytes in the video buffer.
pub const VRAM_SIZE: usize = 128 * 64;
/// Size of the guest address space in bytes.
pub const MEM_SIZE: usize = 0x10000;
/// Number of program counters the block cache covers.
pub const CACHE_SIZE: usize = 0x4000;
/// Address where the 4x5 small font is stored.
pub const SMALL_FONT_ADDR: usize = 0x50;
/// Address where the 8x10 large font is stored.
pub const LARGE_FONT_ADDR: usize = 0xa0;
/// Address where ROMs are loaded and execution starts.
pub const ROM_ADDR: usize = 0x200;

/// The emulated system variant; selecting one installs its quirk preset.
#[derive(PartialEq, Eq, Structural, Clone, Copy, Debug)]
pub enum Chip8System {
    CHIP8,
    LSCHIP,
    MSCHIP,
    XOCHIP,
}

/// The mathematical model of the architectural state: every field a
/// plain value or a sequence. Contracts speak of this type.
#[verifier::ext_equal]
pub ghost struct ArchState {
    pub mem: Seq<u8>,
    pub vram: Seq<u8>,
    pub i: u16,
    pub pc: u16,
    pub regs: Seq<u8>,
    pub stack: Seq<u16>,
    pub sp: u8,
    pub halted: bool,
    pub halt_reg: u8,
    pub halt_wait_for_release: bool,
    pub delay: u8,
    pub sound: u8,
    pub wait_vblank: bool,
    pub hires: bool,
    pub plane: u8,
    pub audio_buf: Seq<u8>,
    pub pitch: u8,
    pub paused: bool,
    pub keys_held: Seq<bool>,
    pub flag_file: Option<Seq<u8>>,
    pub system: Chip8System,
    pub quirk_vf_reset: bool,
    pub quirk_memory: bool,
    pub quirk_disp_wait: bool,
    pub quirk_clipping: bool,
    pub quirk_shifting: bool,
    pub quirk_jumping: bool,
    pub quirk_disp_wait_lores: bool,
    pub quirk_scroll_full_lores: bool,
    pub quirk_16_colors: bool,
}

impl ArchState {
    /// Well-formedness of the architectural state: buffer lengths, the
    /// stack pointer within [0, 16], the plane mask within the four
    /// bitplanes, and every video byte within the palette range.
    pub open spec fn wf(self) -> bool {
        &&& self.mem.len() == MEM_SIZE
        &&& self.vram.len() == VRAM_SIZE
        &&& self.regs.len() == 16
        &&& self.stack.len() == 16
        &&& self.audio_buf.len() == 16
        &&& self.keys_held.len() == 16
        &&& self.sp <= 16
        &&& self.halt_reg < 16
        &&& self.plane < 16
        &&& (forall|k: int| 0 <= k < VRAM_SIZE ==> self.vram[k] < 16)
        &&& (self.flag_file matches Some(f) ==> f.len() == 16)
    }
}

/// One cached execution block: the addresses of the instructions it was
/// discovered over, in discovery order, and whether it ends in a jump to
/// its own entry (a detected infinite loop).
pub struct Block {
    pub members: Vec<u16>,
    pub inf_loop: bool,
}

#[verifier::external_type_specification]
#[verifier::external_body]
pub struct ExThreadRng(rand::rngs::ThreadRng);

/// Relies on rand::thread_rng: a handle to the thread-local generator.
#[verifier::external_body]
pub(crate) fn new_rng() -> rand::rngs::ThreadRng {
    rand::thread_rng()
}

/// The emulated machine. Architectural fields are public so that a
/// debugger collaborator can read and write them; the generator and the
/// block cache are internal.
pub struct Chip8 {
    pub mem: Vec<u8>,
    pub vram: Vec<u8>,
    pub i: u16,
    pub pc: u16,
    pub regs: Vec<u8>,
    pub stack: Vec<u16>,
    pub sp: u8,
    pub halted: bool,
    pub halt_reg: u8,
    pub halt_wait_for_release: bool,
    pub delay: u8,
    pub sound: u8,
    pub wait_vblank: bool,
    pub hires: bool,
    pub plane: u8,
    pub audio_buf: Vec<u8>,
    pub pitch: u8,
    pub paused: bool,
    pub keys_held: Vec<bool>,
    pub flag_file: Option<Vec<u8>>,
    pub system: Chip8System,
    pub quirk_vf_reset: bool,
    pub quirk_memory: bool,
    pub quirk_disp_wait: bool,
    pub quirk_clipping: bool,
    pub quirk_shifting: bool,
    pub quirk_jumping: bool,
    pub quirk_disp_wait_lores: bool,
    pub quirk_scroll_full_lores: bool,
    pub quirk_16_colors: bool,
    /// Internal: the per-emulator random generator.
    pub rng: rand::rngs::ThreadRng,
    /// Internal: the block cache, one slot per cacheable program counter.
    pub blocks: Vec<Option<Block>>,
    /// Internal: whether the block cache may still be tried at a program
    /// counter; cleared once the instruction there proves uncacheable.
    pub try_jit: Vec<bool>,
}

impl View for Chip8 {
    type V = ArchState;

    open spec fn view(&self) -> ArchState {
        ArchState {
            mem: self.mem@,
            vram: self.vram@,
            i: self.i,
            pc: self.pc,
            regs: self.regs@,
            stack: self.stack@,
            sp: self.sp,
            halted: self.halted,
            halt_reg: self.halt_reg,
            halt_wait_for_release: self.halt_wait_for_release,
            delay: self.delay,
            sound: self.sound,
            wait_vblank: self.wait_vblank,
            hires: self.hires,
            plane: self.plane,
            audio_buf: self.audio_buf@,
            pitch: self.pitch,
            paused: self.paused,
            keys_held: self.keys_held@,
            flag_file: match self.flag_file {
                Some(f) => Some(f@),
                None => None,
            },
            system: self.system,
            quirk_vf_reset: self.quirk_vf_reset,
            quirk_memory: self.quirk_memory,
            quirk_disp_wait: self.quirk_disp_wait,
            quirk_clipping: self.quirk_clipping,
            quirk_shifting: self.quirk_shifting,
            quirk_jumping: self.quirk_jumping,
            quirk_disp_wait_lores: self.quirk_disp_wait_lores,
            quirk_scroll_full_lores: self.quirk_scroll_full_lores,
            quirk_16_colors: self.quirk_16_colors,
        }
    }
}

impl Chip8 {
    /// Well-formedness: the architectural state is well formed and the
    /// block cache has its fixed extent.
    pub open spec fn wf(&self) -> bool {
        &&& self@.wf()
        &&& self.cache_wf()
    }

    /// Well-formedness of the block cache.
    pub open spec fn cache_wf(&self) -> bool {
        &&& self.blocks@.len() == CACHE_SIZE
        &&& self.try_jit@.len() == CACHE_SIZE
    }
}

/// A vector of `n` zero bytes.
fn zero_bytes(n: usize) -> (v: Vec<u8>)
    ensures
        v@.len() == n,
        forall|k: int| 0 <= k < n ==> v@[k] == 0u8,
{
    let mut v: Vec<u8> = Vec::new();
    let mut k: usize = 0;
    while k < n
        invariant
            v@.len() == k,
            k <= n,
            forall|j: int| 0 <= j < k ==> v@[j] == 0u8,
        decreases n - k,
    {
        v.push(0);
        k += 1;
    }
    v
}

/// A vector of `n` zero 16-bit words.
fn zero_words(n: usize) -> (v: Vec<u16>)
    ensures
        v@.len() == n,
        forall|k: int| 0 <= k < n ==> v@[k] == 0u16,
{
    let mut v: Vec<u16> = Vec::new();
    let mut k: usize = 0;
    while k < n
        invariant
            v@.len() == k,
            k <= n,
            forall|j: int| 0 <= j < k ==> v@[j] == 0u16,
        decreases n - k,
    {
        v.push(0);
        k += 1;
    }
    v
}

/// A vector of `n` false flags.
fn falses(n: usize) -> (v: Vec<bool>)
    ensures
        v@.len() == n,
        forall|k: int| 0 <= k < n ==> v@[k] == false,
{
    let mut v: Vec<bool> = Vec::new();
    let mut k: usize = 0;
    while k < n
        invariant
            v@.len() == k,
            k <= n,
            forall|j: int| 0 <= j < k ==> v@[j] == false,
        decreases n - k,
    {
        v.push(false);
        k += 1;
    }
    v
}

/// An empty block cache: one vacant slot per cacheable program counter.
fn empty_cache() -> (v: Vec<Option<Block>>)
    ensures
        v@.len() == CACHE_SIZE,
        forall|k: int| 0 <= k < CACHE_SIZE ==> v@[k] is None,
{
    let mut v: Vec<Option<Block>> = Vec::new();
    let mut k: usize = 0;
    while k < CACHE_SIZE
        invariant
            v@.len() == k,
            k <= CACHE_SIZE,
            forall|j: int| 0 <= j < k ==> v@[j] is None,
        decreases CACHE_SIZE - k,
    {
        v.push(None);
        k += 1;
    }
    v
}

/// A cache-try table with every program counter still eligible.
fn full_try_jit() -> (v: Vec<bool>)
    ensures
        v@.len() == CACHE_SIZE,
        forall|k: int| 0 <= k < CACHE_SIZE ==> v@[k] == true,
{
    let mut v: Vec<bool> = Vec::new();
    let mut k: usize = 0;
    while k < CACHE_SIZE
        invariant
            v@.len() == k,
            k <= CACHE_SIZE,
            forall|j: int| 0 <= j < k ==> v@[j] == true,
        decreases CACHE_SIZE - k,
    {
        v.push(true);
        k += 1;
    }
    v
}

/// Overwrite `dst[at .. at + src.len()]` with the bytes of `src`.
fn copy_into(dst: &mut Vec<u8>, at: usize, src: &Vec<u8>)
    requires
        at + src@.len() <= old(dst)@.len(),
    ensures
        final(dst)@.len() == old(dst)@.len(),
        final(dst)@ == old(dst)@.map(|a: int, b: u8| if at <= a < at + src@.len() {
            src@[a - at]
        } else {
            b
        }),
{
    let ghost d0 = dst@;
    let n = dst.len();
    let mut k: usize = 0;
    while k < src.len()
        invariant
            at + src@.len() <= d0.len(),
            d0.len() == n,
            k <= src@.len(),
            dst@.len() == d0.len(),
            forall|a: int| 0 <= a < d0.len() && !(at <= a < at + k) ==> dst@[a] == d0[a],
            forall|a: int| at <= a < at + k ==> dst@[a] == src@[a - at],
        decreases src@.len() - k,
    {
        dst.set(at + k, src[k]);
        k += 1;
    }
    proof {
        assert(dst@ =~= d0.map(|a: int, b: u8| if at <= a < at + src@.len() {
            src@[a - at]
        } else {
            b
        }));
    }
}

/// Guest memory at power-on: zeroes except the two font images.
pub open spec fn initial_mem() -> Seq<u8> {
    Seq::new(MEM_SIZE as nat, |a: int| {
        if SMALL_FONT_ADDR <= a < SMALL_FONT_ADDR + 80 {
            crate::fonts::small_font_seq()[a - SMALL_FONT_ADDR]
        } else if LARGE_FONT_ADDR <= a < LARGE_FONT_ADDR + 160 {
            crate::fonts::large_font_seq()[a - LARGE_FONT_ADDR]
        } else {
            0u8
        }
    })
}

/// The architectural state `Chip8::new` establishes.
pub open spec fn initial_state() -> ArchState {
    set_system_spec(
        ArchState {
            mem: initial_mem(),
            vram: Seq::new(VRAM_SIZE as nat, |k: int| 0u8),
            i: 0,
            pc: 0x200,
            regs: Seq::new(16, |k: int| 0u8),
            stack: Seq::new(16, |k: int| 0u16),
            sp: 0,
            halted: false,
            halt_reg: 0,
            halt_wait_for_release: false,
            delay: 0,
            sound: 0,
            wait_vblank: true,
            hires: false,
            plane: 1,
            audio_buf: Seq::new(16, |k: int| 0u8),
            pitch: 0,
            paused: true,
            keys_held: Seq::new(16, |k: int| false),
            flag_file: None,
            system: Chip8System::CHIP8,
            quirk_vf_reset: false,
            quirk_memory: false,
            quirk_disp_wait: false,
            quirk_clipping: false,
            quirk_shifting: false,
            quirk_jumping: false,
            quirk_disp_wait_lores: false,
            quirk_scroll_full_lores: false,
            quirk_16_colors: true,
        },
        Chip8System::XOCHIP,
    )
}

/// The quirk booleans a system variant installs.
pub open spec fn quirk_preset_vf_reset(system: Chip8System) -> bool {
    system == Chip8System::CHIP8
}

pub open spec fn quirk_preset_memory(system: Chip8System) -> bool {
    system == Chip8System::CHIP8 || system == Chip8System::XOCHIP
}

pub open spec fn quirk_preset_clipping(system: Chip8System) -> bool {
    system != Chip8System::XOCHIP
}

pub open spec fn quirk_preset_shifting(system: Chip8System) -> bool {
    system == Chip8System::LSCHIP || system == Chip8System::MSCHIP
}

pub open spec fn quirk_preset_jumping(system: Chip8System) -> bool {
    system == Chip8System::LSCHIP || system == Chip8System::MSCHIP
}

pub open spec fn quirk_preset_disp_wait_lores(system: Chip8System) -> bool {
    system == Chip8System::CHIP8 || system == Chip8System::LSCHIP
}

pub open spec fn quirk_preset_scroll_full_lores(system: Chip8System) -> bool {
    system != Chip8System::LSCHIP
}

/// The state after `set_system`: the quirk profile is reset to the
/// variant's canonical preset and the variant recorded; all else kept.
pub open spec fn set_system_spec(m: ArchState, system: Chip8System) -> ArchState {
    ArchState {
        system: system,
        quirk_vf_reset: quirk_preset_vf_reset(system),
        quirk_memory: quirk_preset_memory(system),
        quirk_disp_wait: true,
        quirk_clipping: quirk_preset_clipping(system),
        quirk_shifting: quirk_preset_shifting(system),
        quirk_jumping: quirk_preset_jumping(system),
        quirk_disp_wait_lores: quirk_preset_disp_wait_lores(system),
        quirk_scroll_full_lores: quirk_preset_scroll_full_lores(system),
        ..m
    }
}

impl Chip8 {
    /// Reset the quirk profile to the canonical preset of `system` and
    /// record the variant.
    pub fn set_system(&mut self, system: Chip8System)
        ensures
            final(self)@ == set_system_spec(old(self)@, system),
            final(self).blocks@ == old(self).blocks@,
            final(self).try_jit@ == old(self).try_jit@,
    {
        let is_chip8 = system == Chip8System::CHIP8;
        let is_lschip = system == Chip8System::LSCHIP;
        let is_mschip = system == Chip8System::MSCHIP;
        let is_xochip = system == Chip8System::XOCHIP;
        self.quirk_vf_reset = is_chip8;
        self.quirk_memory = is_chip8 || is_xochip;
        self.quirk_disp_wait = true;
        self.quirk_clipping = !is_xochip;
        self.quirk_shifting = is_lschip || is_mschip;
        self.quirk_jumping = is_lschip || is_mschip;
        self.quirk_disp_wait_lores = is_chip8 || is_lschip;
        self.quirk_scroll_full_lores = !is_lschip;
        self.system = system;
        proof {
            assert(self@ =~= set_system_spec(old(self)@, system));
        }
    }

    /// Construct a machine in its power-on state: fonts installed,
    /// program counter at the ROM address, XO-CHIP quirk preset.
    pub fn new() -> (r: Chip8)
        ensures
            r.wf(),
            r@ == initial_state(),
            forall|k: int| 0 <= k < CACHE_SIZE ==> r.blocks@[k] is None && r.try_jit@[k] == true,
    {
        let mut mem = zero_bytes(MEM_SIZE);
        let small = crate::fonts::small_font();
        let large = crate::fonts::large_font();
        copy_into(&mut mem, SMALL_FONT_ADDR, &small);
        copy_into(&mut mem, LARGE_FONT_ADDR, &large);
        let mut ret = Chip8 {
            mem,
            vram: zero_bytes(VRAM_SIZE),
            i: 0,
            pc: 0x200,
            regs: zero_bytes(16),
            stack: zero_words(16),
            sp: 0,
            halted: false,
            halt_reg: 0,
            halt_wait_for_release: false,
            delay: 0,
            sound: 0,
            wait_vblank: true,
            hires: false,
            plane: 1,
            audio_buf: zero_bytes(16),
            pitch: 0,
            paused: true,
            keys_held: falses(16),
            flag_file: None,
            system: Chip8System::CHIP8,
            quirk_vf_reset: false,
            quirk_memory: false,
            quirk_disp_wait: false,
            quirk_clipping: false,
            quirk_shifting: false,
            quirk_jumping: false,
            quirk_disp_wait_lores: false,
            quirk_scroll_full_lores: false,
            quirk_16_colors: true,
            rng: new_rng(),
            blocks: empty_cache(),
            try_jit: full_try_jit(),
        };
        proof {
            assert(ret@.mem =~= initial_mem());
        }
        ret.set_system(Chip8System::XOCHIP);
        proof {
            assert(ret@ =~= initial_state());
        }
        ret
    }

    /// Copy a ROM into guest memory starting at the ROM load address.
    pub fn load_rom(&mut self, rom: &Vec<u8>)
        requires
            old(self).wf(),
            rom@.len() <= MEM_SIZE - ROM_ADDR,
        ensures
            final(self).wf(),
            final(self)@ == (ArchState {
                mem: old(self)@.mem
                    .map(|a: int, b: u8| if ROM_ADDR <= a < ROM_ADDR + rom@.len() {
                        rom@[a - ROM_ADDR]
                    } else {
                        b
                    }),
                ..old(self)@
            }),
    {
        let ghost m0 = self@;
        let mut k: usize = 0;
        while k < rom.len()
            invariant
                self.wf(),
                k <= rom@.len(),
                rom@.len() <= MEM_SIZE - ROM_ADDR,
                self@ == (ArchState { mem: self@.mem, ..m0 }),
                self@.mem.len() == MEM_SIZE,
                forall|a: int| 0 <= a < MEM_SIZE && !(ROM_ADDR <= a < ROM_ADDR + k)
                    ==> self@.mem[a] == m0.mem[a],
                forall|a: int| ROM_ADDR <= a < ROM_ADDR + k ==> self@.mem[a] == rom@[a - ROM_ADDR],
            decreases rom@.len() - k,
        {
            self.mem.set(ROM_ADDR + k, rom[k]);
            k += 1;
        }
        proof {
            assert(self@.mem =~= m0.mem.map(|a: int, b: u8| if ROM_ADDR <= a < ROM_ADDR + rom@.len() {
                rom@[a - ROM_ADDR]
            } else {
                b
            }));
            assert(self@ =~= (ArchState { mem: self@.mem, ..m0 }));
        }
    }
}

} // verus!
