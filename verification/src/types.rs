//! The types that the operations of the binding take and return.
use crate::native::{NativeOpMode, NativeWorkingMode};
use crate::pattern::{groups_view, regex_accepts, regex_captures, search};
use crate::text::{
    dec_digits, dec_usize, dec_value, hex_digits, hex_usize, hex_value, is_dec_digit,
    is_dec_number, is_hex_number, lemma_dec_digits_are_read, lemma_hex_digits_are_read,
    lemma_short_hex_number_is_read, parse_dec, parse_hex, same_text, without_plus,
};
use vstd::arithmetic::power::pow;
use vstd::prelude::*;
use vstd::std_specs::convert::FromSpecImpl;

verus! {

/// How far an algorithm runs by itself.
#[derive(Clone, Copy, Debug, PartialEq, Eq, Structural)]
pub enum OpMode {
    Auto,
    Manual,
    SemiAuto,
    RegManual,
    Invalid,
}

impl OpMode {
    /// The mode that a native value stands for.
    pub open spec fn of_native(val: NativeOpMode) -> OpMode {
        match val {
            NativeOpMode::OpAuto => OpMode::Auto,
            NativeOpMode::OpManual => OpMode::Manual,
            NativeOpMode::OpSemiAuto => OpMode::SemiAuto,
            NativeOpMode::OpRegManual => OpMode::RegManual,
            NativeOpMode::OpInval => OpMode::Invalid,
        }
    }

    /// The native value that stands for this mode.
    pub open spec fn native(self) -> NativeOpMode {
        match self {
            OpMode::Auto => NativeOpMode::OpAuto,
            OpMode::Manual => NativeOpMode::OpManual,
            OpMode::SemiAuto => NativeOpMode::OpSemiAuto,
            OpMode::RegManual => NativeOpMode::OpRegManual,
            OpMode::Invalid => NativeOpMode::OpInval,
        }
    }
}

impl From<NativeOpMode> for OpMode {
    fn from(val: NativeOpMode) -> (r: OpMode) {
        match val {
            NativeOpMode::OpAuto => OpMode::Auto,
            NativeOpMode::OpManual => OpMode::Manual,
            NativeOpMode::OpSemiAuto => OpMode::SemiAuto,
            NativeOpMode::OpRegManual => OpMode::RegManual,
            NativeOpMode::OpInval => OpMode::Invalid,
        }
    }
}

impl FromSpecImpl<NativeOpMode> for OpMode {
    open spec fn obeys_from_spec() -> bool {
        true
    }

    open spec fn from_spec(val: NativeOpMode) -> OpMode {
        OpMode::of_native(val)
    }
}

impl From<OpMode> for NativeOpMode {
    fn from(val: OpMode) -> (r: NativeOpMode) {
        match val {
            OpMode::Auto => NativeOpMode::OpAuto,
            OpMode::Manual => NativeOpMode::OpManual,
            OpMode::SemiAuto => NativeOpMode::OpSemiAuto,
            OpMode::RegManual => NativeOpMode::OpRegManual,
            OpMode::Invalid => NativeOpMode::OpInval,
        }
    }
}

impl FromSpecImpl<OpMode> for NativeOpMode {
    open spec fn obeys_from_spec() -> bool {
        true
    }

    open spec fn from_spec(val: OpMode) -> NativeOpMode {
        val.native()
    }
}

/// Converting an operating mode to its native value and back, or a native value
/// to its mode and back, changes nothing.
pub proof fn lemma_op_mode_round_trip(mode: OpMode, val: NativeOpMode)
    ensures
        OpMode::of_native(mode.native()) == mode,
        OpMode::of_native(val).native() == val,
{
}

/// How many exposures make one frame: one, or two or three fused into a frame of
/// high dynamic range.
#[derive(Clone, Copy, Debug, PartialEq, Eq, Structural)]
pub enum WorkingMode {
    Normal,
    IspHdr2,
    IspHdr3,
}

impl WorkingMode {
    /// The mode that a native value stands for.
    pub open spec fn of_native(val: NativeWorkingMode) -> WorkingMode {
        match val {
            NativeWorkingMode::Normal => WorkingMode::Normal,
            NativeWorkingMode::IspHdr2 => WorkingMode::IspHdr2,
            NativeWorkingMode::IspHdr3 => WorkingMode::IspHdr3,
        }
    }

    /// The native value that stands for this mode.
    pub open spec fn native(self) -> NativeWorkingMode {
        match self {
            WorkingMode::Normal => NativeWorkingMode::Normal,
            WorkingMode::IspHdr2 => NativeWorkingMode::IspHdr2,
            WorkingMode::IspHdr3 => NativeWorkingMode::IspHdr3,
        }
    }
}

impl From<NativeWorkingMode> for WorkingMode {
    fn from(val: NativeWorkingMode) -> (r: WorkingMode) {
        match val {
            NativeWorkingMode::Normal => WorkingMode::Normal,
            NativeWorkingMode::IspHdr2 => WorkingMode::IspHdr2,
            NativeWorkingMode::IspHdr3 => WorkingMode::IspHdr3,
        }
    }
}

impl FromSpecImpl<NativeWorkingMode> for WorkingMode {
    open spec fn obeys_from_spec() -> bool {
        true
    }

    open spec fn from_spec(val: NativeWorkingMode) -> WorkingMode {
        WorkingMode::of_native(val)
    }
}

impl From<WorkingMode> for NativeWorkingMode {
    fn from(val: WorkingMode) -> (r: NativeWorkingMode) {
        match val {
            WorkingMode::Normal => NativeWorkingMode::Normal,
            WorkingMode::IspHdr2 => NativeWorkingMode::IspHdr2,
            WorkingMode::IspHdr3 => NativeWorkingMode::IspHdr3,
        }
    }
}

impl FromSpecImpl<WorkingMode> for NativeWorkingMode {
    open spec fn obeys_from_spec() -> bool {
        true
    }

    open spec fn from_spec(val: WorkingMode) -> NativeWorkingMode {
        val.native()
    }
}

/// Converting a working mode to its native value and back, or a native value to
/// its mode and back, changes nothing.
pub proof fn lemma_working_mode_round_trip(mode: WorkingMode, val: NativeWorkingMode)
    ensures
        WorkingMode::of_native(mode.native()) == mode,
        WorkingMode::of_native(val).native() == val,
{
}

/// The side of the device that a camera looks out of.
#[derive(Clone, Copy, Debug, PartialEq, Eq, Structural)]
pub enum CameraFacing {
    Back,
    Front,
    Left,
    Right,
}

/// Why a text names no camera facing.
#[derive(Clone, Copy, Debug, PartialEq, Eq, Structural)]
pub enum CameraFacingParseError {
    NotMatched,
}

impl CameraFacing {
    /// The letter that an identifier writes for this facing.
    pub open spec fn initial(self) -> char {
        match self {
            CameraFacing::Back => 'b',
            CameraFacing::Front => 'f',
            CameraFacing::Left => 'l',
            CameraFacing::Right => 'r',
        }
    }

    /// The facing that `s` names: its initial or its full name, in lower case.
    pub open spec fn spec_from_str(s: Seq<char>) -> Result<CameraFacing, CameraFacingParseError> {
        if s == "b"@ || s == "back"@ {
            Ok(CameraFacing::Back)
        } else if s == "f"@ || s == "front"@ {
            Ok(CameraFacing::Front)
        } else if s == "l"@ || s == "left"@ {
            Ok(CameraFacing::Left)
        } else if s == "r"@ || s == "right"@ {
            Ok(CameraFacing::Right)
        } else {
            Err(CameraFacingParseError::NotMatched)
        }
    }

    /// Reads a facing from its initial (`b`, `f`, `l`, `r`) or its name (`back`,
    /// `front`, `left`, `right`).
    pub fn from_str(s: &str) -> (r: Result<CameraFacing, CameraFacingParseError>)
        ensures
            r == CameraFacing::spec_from_str(s@),
    {
        if same_text(s, "b") || same_text(s, "back") {
            Ok(CameraFacing::Back)
        } else if same_text(s, "f") || same_text(s, "front") {
            Ok(CameraFacing::Front)
        } else if same_text(s, "l") || same_text(s, "left") {
            Ok(CameraFacing::Left)
        } else if same_text(s, "r") || same_text(s, "right") {
            Ok(CameraFacing::Right)
        } else {
            Err(CameraFacingParseError::NotMatched)
        }
    }
}

impl Default for CameraFacing {
    fn default() -> (r: CameraFacing)
        ensures
            r == CameraFacing::Back,
    {
        CameraFacing::Back
    }
}

/// Why a text is no camera module identifier.
#[derive(Clone, Copy, Debug, PartialEq, Eq, Structural)]
pub enum CameraModuleInfoParseError {
    ParseBusFailed,
    ParseFacingFailed,
    ParseIndexFailed,
    ParseRegFailed,
    NotMatched,
    RegexError,
}

/// What a camera module identifier such as `m00_b_ov5695 4-0036-1` says.
#[derive(Clone, Debug, PartialEq, Eq)]
pub struct CameraModuleInfo {
    /// The number of the module.
    pub index: usize,
    /// The side that the camera looks out of.
    pub facing: CameraFacing,
    /// The name of the module.
    pub name: String,
    /// The number of the bus that the module sits on.
    pub bus: usize,
    /// The address of the module on that bus.
    pub reg: usize,
}

/// A `CameraModuleInfo` as a mathematical value.
pub ghost struct CameraModuleInfoView {
    pub index: usize,
    pub facing: CameraFacing,
    pub name: Seq<char>,
    pub bus: usize,
    pub reg: usize,
}

impl View for CameraModuleInfo {
    type V = CameraModuleInfoView;

    open spec fn view(&self) -> CameraModuleInfoView {
        CameraModuleInfoView {
            index: self.index,
            facing: self.facing,
            name: self.name@,
            bus: self.bus,
            reg: self.reg,
        }
    }
}

/// What a parse of a camera module identifier gives, the value by its view.
pub open spec fn parsed_view(r: Result<CameraModuleInfo, CameraModuleInfoParseError>) -> Result<
    CameraModuleInfoView,
    CameraModuleInfoParseError,
> {
    match r {
        Ok(info) => Ok(info@),
        Err(e) => Err(e),
    }
}

/// The regular expression that finds an identifier in a text: `m`, two
/// hexadecimal digits, `_`, one character, `_`, a name of letters and digits,
/// white space, a run of the digits 0 to 9, `-`, four hexadecimal digits. The
/// five groups are the index, the facing, the name, the bus number and the
/// address.
pub const MODULE_PATTERN: &'static str =
    r"m([[:xdigit:]]{2})_(.)_([[:alnum:]]+)\s+([[:digit:]]+)-([[:xdigit:]]{4})";

/// `MODULE_PATTERN` as a sequence of characters.
pub open spec fn module_pattern() -> Seq<char> {
    MODULE_PATTERN@
}

/// Whether a search gave the whole match and five fields, each of them present.
pub open spec fn has_five_fields(groups: Seq<Option<Seq<char>>>) -> bool {
    groups.len() == 6 && forall|i: int| 0 <= i < 6 ==> (#[trigger] groups[i]) is Some
}

impl CameraModuleInfo {
    /// What the five fields of an identifier say. The index and the address are
    /// read in base 16, the bus number in base 10. The first field that cannot
    /// be read decides the error, in the order index, facing, bus, address.
    pub open spec fn spec_from_fields(
        index: Seq<char>,
        facing: Seq<char>,
        name: Seq<char>,
        bus: Seq<char>,
        reg: Seq<char>,
    ) -> Result<CameraModuleInfoView, CameraModuleInfoParseError> {
        if hex_usize(index) is None {
            Err(CameraModuleInfoParseError::ParseIndexFailed)
        } else if CameraFacing::spec_from_str(facing) is Err {
            Err(CameraModuleInfoParseError::ParseFacingFailed)
        } else if dec_usize(bus) is None {
            Err(CameraModuleInfoParseError::ParseBusFailed)
        } else if hex_usize(reg) is None {
            Err(CameraModuleInfoParseError::ParseRegFailed)
        } else {
            Ok(
                CameraModuleInfoView {
                    index: hex_usize(index)->0,
                    facing: CameraFacing::spec_from_str(facing)->Ok_0,
                    name,
                    bus: dec_usize(bus)->0,
                    reg: hex_usize(reg)->0,
                },
            )
        }
    }

    /// What a search with the pattern of identifiers says: `RegexError` where the
    /// pattern was refused, `NotMatched` where nothing matched or a field is
    /// missing, else what the five fields say.
    pub open spec fn spec_from_search(
        accepted: bool,
        found: Option<Seq<Option<Seq<char>>>>,
    ) -> Result<CameraModuleInfoView, CameraModuleInfoParseError> {
        if !accepted {
            Err(CameraModuleInfoParseError::RegexError)
        } else if found is None || !has_five_fields(found->0) {
            Err(CameraModuleInfoParseError::NotMatched)
        } else {
            CameraModuleInfo::spec_from_fields(
                found->0[1]->0,
                found->0[2]->0,
                found->0[3]->0,
                found->0[4]->0,
                found->0[5]->0,
            )
        }
    }

    /// Builds the value from the five fields of an identifier.
    pub fn from_fields(index: &str, facing: &str, name: &str, bus: &str, reg: &str) -> (r: Result<
        CameraModuleInfo,
        CameraModuleInfoParseError,
    >)
        ensures
            parsed_view(r) == CameraModuleInfo::spec_from_fields(
                index@,
                facing@,
                name@,
                bus@,
                reg@,
            ),
    {
        let index = match parse_hex(index) {
            Some(v) => v,
            None => {
                return Err(CameraModuleInfoParseError::ParseIndexFailed);
            },
        };
        let facing = match CameraFacing::from_str(facing) {
            Ok(v) => v,
            Err(_) => {
                return Err(CameraModuleInfoParseError::ParseFacingFailed);
            },
        };
        let bus = match parse_dec(bus) {
            Some(v) => v,
            None => {
                return Err(CameraModuleInfoParseError::ParseBusFailed);
            },
        };
        let reg = match parse_hex(reg) {
            Some(v) => v,
            None => {
                return Err(CameraModuleInfoParseError::ParseRegFailed);
            },
        };
        Ok(CameraModuleInfo { index, facing, name: name.to_owned(), bus, reg })
    }

    /// Finds the first camera module identifier in `s` and reads it.
    ///
    /// The search is that of the `regex` crate with `MODULE_PATTERN`; what it
    /// finds decides the result as `spec_from_search` says.
    pub fn from_str(s: &str) -> (r: Result<CameraModuleInfo, CameraModuleInfoParseError>)
        ensures
            parsed_view(r) == CameraModuleInfo::spec_from_search(
                regex_accepts(module_pattern()),
                regex_captures(module_pattern(), s@),
            ),
    {
        CameraModuleInfo::from_str_with(MODULE_PATTERN, s)
    }

    /// Finds the first match of `pattern` in `s` and reads its five groups as
    /// index, facing, name, bus and address.
    ///
    /// A pattern that is no regular expression gives `RegexError`; one that does
    /// not match, or whose match is not five groups, each of them present, gives
    /// `NotMatched`.
    pub fn from_str_with(pattern: &str, s: &str) -> (r: Result<
        CameraModuleInfo,
        CameraModuleInfoParseError,
    >)
        ensures
            parsed_view(r) == CameraModuleInfo::spec_from_search(
                regex_accepts(pattern@),
                regex_captures(pattern@, s@),
            ),
    {
        let found = search(pattern, s);
        let groups = match found {
            Err(_) => {
                return Err(CameraModuleInfoParseError::RegexError);
            },
            Ok(None) => {
                return Err(CameraModuleInfoParseError::NotMatched);
            },
            Ok(Some(groups)) => groups,
        };
        CameraModuleInfo::from_groups(&groups)
    }

    /// Reads the identifier out of the capture groups of a match: the whole
    /// match, then index, facing, name, bus and address.
    pub fn from_groups(groups: &Vec<Option<String>>) -> (r: Result<
        CameraModuleInfo,
        CameraModuleInfoParseError,
    >)
        ensures
            parsed_view(r) == CameraModuleInfo::spec_from_search(
                true,
                Some(groups_view(groups@)),
            ),
    {
        if groups.len() != 6 {
            return Err(CameraModuleInfoParseError::NotMatched);
        }
        let ghost view = groups_view(groups@);
        match (&groups[1], &groups[2], &groups[3], &groups[4], &groups[5]) {
            (Some(index), Some(facing), Some(name), Some(bus), Some(reg)) => {
                if groups[0].is_none() {
                    assert(view[0] is None);
                    return Err(CameraModuleInfoParseError::NotMatched);
                }
                assert(has_five_fields(view));
                CameraModuleInfo::from_fields(
                    index.as_str(),
                    facing.as_str(),
                    name.as_str(),
                    bus.as_str(),
                    reg.as_str(),
                )
            },
            _ => {
                assert(view[1] is None || view[2] is None || view[3] is None || view[4] is None
                    || view[5] is None);
                Err(CameraModuleInfoParseError::NotMatched)
            },
        }
    }
}

/// One character names a facing exactly when it is `b`, `f`, `l` or `r`.
pub proof fn lemma_facing_of_one_character(c: char)
    ensures
        CameraFacing::spec_from_str(seq![c]) == (if c == 'b' {
            Ok::<CameraFacing, CameraFacingParseError>(CameraFacing::Back)
        } else if c == 'f' {
            Ok(CameraFacing::Front)
        } else if c == 'l' {
            Ok(CameraFacing::Left)
        } else if c == 'r' {
            Ok(CameraFacing::Right)
        } else {
            Err(CameraFacingParseError::NotMatched)
        }),
{
    reveal_strlit("b");
    reveal_strlit("back");
    reveal_strlit("f");
    reveal_strlit("front");
    reveal_strlit("l");
    reveal_strlit("left");
    reveal_strlit("r");
    reveal_strlit("right");
    let s = seq![c];
    assert(s.len() == 1 && s[0] == c);
    if c == 'b' {
        assert(s =~= "b"@);
    } else if c == 'f' {
        assert(s =~= "f"@);
    } else if c == 'l' {
        assert(s =~= "l"@);
    } else if c == 'r' {
        assert(s =~= "r"@);
    }
}

/// Fields whose index can be read and whose facing is one character other than
/// `b`, `f`, `l` and `r` fail on the facing, whatever the other fields hold.
pub proof fn lemma_unknown_facing_fails(
    index: Seq<char>,
    facing: char,
    name: Seq<char>,
    bus: Seq<char>,
    reg: Seq<char>,
)
    requires
        hex_usize(index) is Some,
        facing != 'b' && facing != 'f' && facing != 'l' && facing != 'r',
    ensures
        CameraModuleInfo::spec_from_fields(index, seq![facing], name, bus, reg) == Err::<
            CameraModuleInfoView,
            CameraModuleInfoParseError,
        >(CameraModuleInfoParseError::ParseFacingFailed),
{
    lemma_facing_of_one_character(facing);
}

/// What fields of the shape that `module_pattern` describes say: an index of two
/// hexadecimal digits, a facing of one character, a bus number of decimal
/// digits and an address of four hexadecimal digits. Neither the index nor the
/// address can fail; the facing fails unless it is `b`, `f`, `l` or `r`, and
/// after it the bus number fails only where its decimal value does not fit a
/// `usize`.
pub proof fn lemma_fields_of_the_pattern(
    index: Seq<char>,
    facing: char,
    name: Seq<char>,
    bus: Seq<char>,
    reg: Seq<char>,
)
    requires
        is_hex_number(index) && index.len() == 2,
        is_dec_number(bus),
        is_hex_number(reg) && reg.len() == 4,
    ensures
        hex_value(index) < 0x100,
        hex_value(reg) < 0x1_0000,
        CameraModuleInfo::spec_from_fields(index, seq![facing], name, bus, reg) == (
        if CameraFacing::spec_from_str(seq![facing]) is Err {
            Err::<CameraModuleInfoView, CameraModuleInfoParseError>(
                CameraModuleInfoParseError::ParseFacingFailed,
            )
        } else if dec_value(bus) > usize::MAX {
            Err(CameraModuleInfoParseError::ParseBusFailed)
        } else {
            Ok(
                CameraModuleInfoView {
                    index: hex_value(index) as usize,
                    facing: CameraFacing::spec_from_str(seq![facing])->Ok_0,
                    name,
                    bus: dec_value(bus) as usize,
                    reg: hex_value(reg) as usize,
                },
            )
        }),
{
    lemma_short_hex_number_is_read(index);
    lemma_short_hex_number_is_read(reg);
    assert(is_dec_digit(bus[0]));
    assert(without_plus(bus) == bus);
    assert(pow(16, 2) == 0x100) by {
        reveal_with_fuel(pow, 3);
    }
    assert(pow(16, 4) == 0x1_0000) by {
        reveal_with_fuel(pow, 5);
    }
}

/// What is written is read back: the fields of an identifier that writes the
/// index on two hexadecimal digits, the facing as its initial, the bus number
/// in base 10 and the address on four hexadecimal digits say that index, that
/// facing, the name as it stands, that bus number and that address.
pub proof fn lemma_written_identifier_is_read(
    index: nat,
    facing: CameraFacing,
    name: Seq<char>,
    bus: nat,
    reg: nat,
)
    requires
        index <= 0xff,
        bus <= usize::MAX,
        reg <= 0xffff,
    ensures
        CameraModuleInfo::spec_from_fields(
            hex_digits(index, 2),
            seq![facing.initial()],
            name,
            dec_digits(bus),
            hex_digits(reg, 4),
        ) == Ok::<CameraModuleInfoView, CameraModuleInfoParseError>(
            CameraModuleInfoView {
                index: index as usize,
                facing,
                name,
                bus: bus as usize,
                reg: reg as usize,
            },
        ),
{
    assert(pow(16, 2) == 0x100) by {
        reveal_with_fuel(pow, 3);
    }
    assert(pow(16, 4) == 0x1_0000) by {
        reveal_with_fuel(pow, 5);
    }
    lemma_hex_digits_are_read(index, 2);
    lemma_hex_digits_are_read(reg, 4);
    lemma_short_hex_number_is_read(hex_digits(index, 2));
    lemma_short_hex_number_is_read(hex_digits(reg, 4));
    lemma_dec_digits_are_read(bus);
    lemma_facing_of_one_character(facing.initial());
}

impl Default for CameraModuleInfo {
    fn default() -> (r: CameraModuleInfo)
        ensures
            r@ == (CameraModuleInfoView {
                index: 0,
                facing: CameraFacing::Back,
                name: Seq::<char>::empty(),
                bus: 0,
                reg: 0,
            }),
    {
        CameraModuleInfo { index: 0, facing: CameraFacing::Back, name: String::new(), bus: 0, reg: 0 }
    }
}

} // verus!
