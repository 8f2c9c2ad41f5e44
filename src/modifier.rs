//! The modifier flags that change how services are brought up, and the
//! orchestrator arguments each one adds.
use vstd::prelude::*;

verus! {

/// Rebuild images before starting.
pub const BUILD: u8 = 2;

/// Recreate containers even when nothing changed.
pub const FORCE_RECREATE: u8 = 4;

/// Always pull images before starting.
pub const PULL_ALWAYS: u8 = 8;

/// Stop everything when one container exits.
pub const ABORT_ON_CONTAINER_FAILURE: u8 = 16;

/// Do not start linked services.
pub const NO_DEPS: u8 = 32;

/// Every flag.
pub const ALL_FLAGS: u8 = 62;

/// Whether every bit of `flag` is set in `bits`.
pub open spec fn has_flag(bits: u8, flag: u8) -> bool {
    bits & flag == flag
}

/// The arguments `flag` contributes when set in `bits`.
pub open spec fn args_if(bits: u8, flag: u8, args: Seq<Seq<char>>) -> Seq<Seq<char>> {
    if has_flag(bits, flag) {
        args
    } else {
        Seq::empty()
    }
}

/// The orchestrator arguments of a set of flags: each set flag adds its own
/// arguments, in the fixed order of the flags.
pub open spec fn modifier_args(bits: u8) -> Seq<Seq<char>> {
    args_if(bits, BUILD, seq!["--build"@])
        + args_if(bits, FORCE_RECREATE, seq!["--force-recreate"@])
        + args_if(bits, PULL_ALWAYS, seq!["--pull"@, "always"@])
        + args_if(bits, ABORT_ON_CONTAINER_FAILURE, seq!["--abort-on-container-exit"@])
        + args_if(bits, NO_DEPS, seq!["--no-deps"@])
}

/// The views of a list of string slices.
pub open spec fn strs_view(v: Seq<&str>) -> Seq<Seq<char>> {
    v.map_values(|s: &str| s@)
}

/// The flag that digit key `c` toggles, `0` for any other key.
pub open spec fn flag_of_key(c: char) -> u8 {
    if c == '1' {
        BUILD
    } else if c == '2' {
        FORCE_RECREATE
    } else if c == '3' {
        PULL_ALWAYS
    } else if c == '4' {
        ABORT_ON_CONTAINER_FAILURE
    } else if c == '5' {
        NO_DEPS
    } else {
        0
    }
}

/// A set of modifier flags.
#[derive(Clone, Copy, Debug, PartialEq, Eq, Structural)]
pub struct DockerModifier {
    pub bits: u8,
}

impl DockerModifier {
    /// No flag set.
    pub fn empty() -> (r: DockerModifier)
        ensures
            r.bits == 0,
    {
        DockerModifier { bits: 0 }
    }

    /// The flags of `bits`, with the bits that name no flag dropped.
    pub fn from_bits_truncate(bits: u8) -> (r: DockerModifier)
        ensures
            r.bits == bits & ALL_FLAGS,
    {
        DockerModifier { bits: bits & ALL_FLAGS }
    }

    /// The raw bits.
    pub fn bits(&self) -> (r: u8)
        ensures
            r == self.bits,
    {
        self.bits
    }

    /// Whether every flag of `flag` is set.
    pub fn contains(&self, flag: u8) -> (r: bool)
        ensures
            r == has_flag(self.bits, flag),
    {
        self.bits & flag == flag
    }

    /// Flips every flag of `other`.
    pub fn toggle(&mut self, other: DockerModifier)
        ensures
            final(self).bits == old(self).bits ^ other.bits,
    {
        self.bits = self.bits ^ other.bits;
    }

    /// Flips the flag that digit key `c` stands for: `1` build, `2` force
    /// recreate, `3` pull always, `4` abort on container failure, `5` no
    /// dependencies. Any other key changes nothing.
    pub fn toggle_key(&mut self, c: char)
        ensures
            final(self).bits == old(self).bits ^ flag_of_key(c),
    {
        let flag: u8 = match c {
            '1' => BUILD,
            '2' => FORCE_RECREATE,
            '3' => PULL_ALWAYS,
            '4' => ABORT_ON_CONTAINER_FAILURE,
            '5' => NO_DEPS,
            _ => 0,
        };
        self.toggle(DockerModifier::from_bits_truncate(flag));
        assert(flag & ALL_FLAGS == flag) by (bit_vector)
            requires
                flag == 0 || flag == 2 || flag == 4 || flag == 8 || flag == 16 || flag == 32,
        ;
    }

    /// The orchestrator arguments of the set flags.
    pub fn to_args(&self) -> (r: Vec<&'static str>)
        ensures
            strs_view(r@) == modifier_args(self.bits),
    {
        let mut args: Vec<&'static str> = Vec::new();
        let ghost b = self.bits;
        if self.contains(BUILD) {
            args.push("--build");
        }
        assert(strs_view(args@) =~= args_if(b, BUILD, seq!["--build"@]));
        let ghost a1 = strs_view(args@);
        if self.contains(FORCE_RECREATE) {
            args.push("--force-recreate");
        }
        assert(strs_view(args@) =~= a1 + args_if(b, FORCE_RECREATE, seq!["--force-recreate"@]));
        let ghost a2 = strs_view(args@);
        if self.contains(PULL_ALWAYS) {
            args.push("--pull");
            args.push("always");
        }
        assert(strs_view(args@) =~= a2 + args_if(b, PULL_ALWAYS, seq!["--pull"@, "always"@]));
        let ghost a3 = strs_view(args@);
        if self.contains(ABORT_ON_CONTAINER_FAILURE) {
            args.push("--abort-on-container-exit");
        }
        assert(strs_view(args@) =~= a3 + args_if(
            b,
            ABORT_ON_CONTAINER_FAILURE,
            seq!["--abort-on-container-exit"@],
        ));
        let ghost a4 = strs_view(args@);
        if self.contains(NO_DEPS) {
            args.push("--no-deps");
        }
        assert(strs_view(args@) =~= a4 + args_if(b, NO_DEPS, seq!["--no-deps"@]));
        args
    }
}

} // verus!
