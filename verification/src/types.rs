//! Operating mode and airflow enumerations of the DSIOT protocol, with their
//! one-byte wire codes.

use vstd::prelude::*;

verus! {
/// HVAC operating mode.
#[derive(Debug, PartialEq, Eq, Clone, Copy, Structural)]
pub enum Mode {
    Fan,
    Heating,
    Cooling,
    Auto,
    Dehumidify,
    Unknown,
}
impl Mode {
    /// The byte that stands for this mode on the wire.
    pub open spec fn code(self) -> u8 {
        match self {
            Mode::Fan => 0,
            Mode::Heating => 1,
            Mode::Cooling => 2,
            Mode::Auto => 3,
            Mode::Dehumidify => 5,
            Mode::Unknown => 255,
        }
    }

    /// The mode that a wire byte stands for, if any.
    pub open spec fn decode(v: u8) -> Result<Mode, ()> {
        if v == 0 {
            Ok(Mode::Fan)
        } else if v == 1 {
            Ok(Mode::Heating)
        } else if v == 2 {
            Ok(Mode::Cooling)
        } else if v == 3 {
            Ok(Mode::Auto)
        } else if v == 5 {
            Ok(Mode::Dehumidify)
        } else if v == 255 {
            Ok(Mode::Unknown)
        } else {
            Err(())
        }
    }

    /// The wire byte of this mode.
    pub fn to_u8(self) -> (r: u8)
        ensures
            r == self.code(),
    {
        match self {
            Mode::Fan => 0,
            Mode::Heating => 1,
            Mode::Cooling => 2,
            Mode::Auto => 3,
            Mode::Dehumidify => 5,
            Mode::Unknown => 255,
        }
    }
}

impl TryFrom<u8> for Mode {
    type Error = ();

    fn try_from(v: u8) -> (r: Result<Mode, ()>) {
        match v {
            0 => Ok(Mode::Fan),
            1 => Ok(Mode::Heating),
            2 => Ok(Mode::Cooling),
            3 => Ok(Mode::Auto),
            5 => Ok(Mode::Dehumidify),
            255 => Ok(Mode::Unknown),
            _ => Err(()),
        }
    }
}

impl Mode {
    /// The value that an optional wire byte stands for; nothing for an
    /// absent or unknown byte.
    pub open spec fn decode_opt(c: Option<u8>) -> Option<Mode> {
        match c {
            Some(v) => match Mode::decode(v) {
                Ok(x) => Some(x),
                Err(_) => None,
            },
            None => None,
        }
    }

    /// The wire byte of an optional value.
    pub open spec fn encode_opt(x: Option<Mode>) -> Option<u8> {
        match x {
            Some(v) => Some(v.code()),
            None => None,
        }
    }

    /// Encodes an optional value as its wire byte.
    pub fn to_code(x: Option<Mode>) -> (r: Option<u8>)
        ensures
            r == Mode::encode_opt(x),
    {
        match x {
            Some(v) => Some(v.to_u8()),
            None => None,
        }
    }

    /// Decodes an optional wire byte.
    pub fn from_code(c: Option<u8>) -> (r: Option<Mode>)
        ensures
            r == Mode::decode_opt(c),
    {
        match c {
            Some(v) => match Mode::try_from(v) {
                Ok(x) => Some(x),
                Err(_) => None,
            },
            None => None,
        }
    }
}

impl vstd::std_specs::convert::TryFromSpecImpl<u8> for Mode {
    open spec fn obeys_try_from_spec() -> bool {
        true
    }

    open spec fn try_from_spec(v: u8) -> Result<Mode, ()> {
        Mode::decode(v)
    }
}

/// Decoding the wire byte of a mode gives that mode back.
pub proof fn lemma_mode_code_roundtrip(x: Mode)
    ensures
        Mode::decode(x.code()) == Ok::<Mode, ()>(x),
{
}

/// A byte decodes to a mode only if it is that mode's wire byte.
pub proof fn lemma_mode_decode_exact(v: u8)
    ensures
        Mode::decode(v) matches Ok(x) ==> x.code() == v,
{
}

/// Fan speed setting.
#[derive(Debug, PartialEq, Eq, Clone, Copy, Structural)]
pub enum WindSpeed {
    Silent,
    Lev1,
    Lev2,
    Lev3,
    Lev4,
    Lev5,
    Auto,
    Unknown,
}
impl WindSpeed {
    /// The byte that stands for this wind speed on the wire.
    pub open spec fn code(self) -> u8 {
        match self {
            WindSpeed::Silent => 0x0B,
            WindSpeed::Lev1 => 0x03,
            WindSpeed::Lev2 => 0x04,
            WindSpeed::Lev3 => 0x05,
            WindSpeed::Lev4 => 0x06,
            WindSpeed::Lev5 => 0x07,
            WindSpeed::Auto => 0x0A,
            WindSpeed::Unknown => 0xFF,
        }
    }

    /// The wind speed that a wire byte stands for, if any.
    pub open spec fn decode(v: u8) -> Result<WindSpeed, ()> {
        if v == 0x0B {
            Ok(WindSpeed::Silent)
        } else if v == 0x03 {
            Ok(WindSpeed::Lev1)
        } else if v == 0x04 {
            Ok(WindSpeed::Lev2)
        } else if v == 0x05 {
            Ok(WindSpeed::Lev3)
        } else if v == 0x06 {
            Ok(WindSpeed::Lev4)
        } else if v == 0x07 {
            Ok(WindSpeed::Lev5)
        } else if v == 0x0A {
            Ok(WindSpeed::Auto)
        } else if v == 0xFF {
            Ok(WindSpeed::Unknown)
        } else {
            Err(())
        }
    }

    /// The wire byte of this wind speed.
    pub fn to_u8(self) -> (r: u8)
        ensures
            r == self.code(),
    {
        match self {
            WindSpeed::Silent => 0x0B,
            WindSpeed::Lev1 => 0x03,
            WindSpeed::Lev2 => 0x04,
            WindSpeed::Lev3 => 0x05,
            WindSpeed::Lev4 => 0x06,
            WindSpeed::Lev5 => 0x07,
            WindSpeed::Auto => 0x0A,
            WindSpeed::Unknown => 0xFF,
        }
    }
}

impl TryFrom<u8> for WindSpeed {
    type Error = ();

    fn try_from(v: u8) -> (r: Result<WindSpeed, ()>) {
        match v {
            0x0B => Ok(WindSpeed::Silent),
            0x03 => Ok(WindSpeed::Lev1),
            0x04 => Ok(WindSpeed::Lev2),
            0x05 => Ok(WindSpeed::Lev3),
            0x06 => Ok(WindSpeed::Lev4),
            0x07 => Ok(WindSpeed::Lev5),
            0x0A => Ok(WindSpeed::Auto),
            0xFF => Ok(WindSpeed::Unknown),
            _ => Err(()),
        }
    }
}

impl WindSpeed {
    /// The value that an optional wire byte stands for; nothing for an
    /// absent or unknown byte.
    pub open spec fn decode_opt(c: Option<u8>) -> Option<WindSpeed> {
        match c {
            Some(v) => match WindSpeed::decode(v) {
                Ok(x) => Some(x),
                Err(_) => None,
            },
            None => None,
        }
    }

    /// The wire byte of an optional value.
    pub open spec fn encode_opt(x: Option<WindSpeed>) -> Option<u8> {
        match x {
            Some(v) => Some(v.code()),
            None => None,
        }
    }

    /// Encodes an optional value as its wire byte.
    pub fn to_code(x: Option<WindSpeed>) -> (r: Option<u8>)
        ensures
            r == WindSpeed::encode_opt(x),
    {
        match x {
            Some(v) => Some(v.to_u8()),
            None => None,
        }
    }

    /// Decodes an optional wire byte.
    pub fn from_code(c: Option<u8>) -> (r: Option<WindSpeed>)
        ensures
            r == WindSpeed::decode_opt(c),
    {
        match c {
            Some(v) => match WindSpeed::try_from(v) {
                Ok(x) => Some(x),
                Err(_) => None,
            },
            None => None,
        }
    }
}

impl vstd::std_specs::convert::TryFromSpecImpl<u8> for WindSpeed {
    open spec fn obeys_try_from_spec() -> bool {
        true
    }

    open spec fn try_from_spec(v: u8) -> Result<WindSpeed, ()> {
        WindSpeed::decode(v)
    }
}

/// Decoding the wire byte of a wind speed gives that wind speed back.
pub proof fn lemma_wind_speed_code_roundtrip(x: WindSpeed)
    ensures
        WindSpeed::decode(x.code()) == Ok::<WindSpeed, ()>(x),
{
}

/// A byte decodes to a wind speed only if it is that wind speed's wire byte.
pub proof fn lemma_wind_speed_decode_exact(v: u8)
    ensures
        WindSpeed::decode(v) matches Ok(x) ==> x.code() == v,
{
}

/// Fan speed setting for auto mode.
#[derive(Debug, PartialEq, Eq, Clone, Copy, Structural)]
pub enum AutoModeWindSpeed {
    Silent,
    Auto,
    Unknown,
}
impl AutoModeWindSpeed {
    /// The byte that stands for this auto-mode wind speed on the wire.
    pub open spec fn code(self) -> u8 {
        match self {
            AutoModeWindSpeed::Silent => 0x0B,
            AutoModeWindSpeed::Auto => 0x0A,
            AutoModeWindSpeed::Unknown => 0xFF,
        }
    }

    /// The auto-mode wind speed that a wire byte stands for, if any.
    pub open spec fn decode(v: u8) -> Result<AutoModeWindSpeed, ()> {
        if v == 0x0B {
            Ok(AutoModeWindSpeed::Silent)
        } else if v == 0x0A {
            Ok(AutoModeWindSpeed::Auto)
        } else if v == 0xFF {
            Ok(AutoModeWindSpeed::Unknown)
        } else {
            Err(())
        }
    }

    /// The wire byte of this auto-mode wind speed.
    pub fn to_u8(self) -> (r: u8)
        ensures
            r == self.code(),
    {
        match self {
            AutoModeWindSpeed::Silent => 0x0B,
            AutoModeWindSpeed::Auto => 0x0A,
            AutoModeWindSpeed::Unknown => 0xFF,
        }
    }
}

impl TryFrom<u8> for AutoModeWindSpeed {
    type Error = ();

    fn try_from(v: u8) -> (r: Result<AutoModeWindSpeed, ()>) {
        match v {
            0x0B => Ok(AutoModeWindSpeed::Silent),
            0x0A => Ok(AutoModeWindSpeed::Auto),
            0xFF => Ok(AutoModeWindSpeed::Unknown),
            _ => Err(()),
        }
    }
}

impl AutoModeWindSpeed {
    /// The value that an optional wire byte stands for; nothing for an
    /// absent or unknown byte.
    pub open spec fn decode_opt(c: Option<u8>) -> Option<AutoModeWindSpeed> {
        match c {
            Some(v) => match AutoModeWindSpeed::decode(v) {
                Ok(x) => Some(x),
                Err(_) => None,
            },
            None => None,
        }
    }

    /// The wire byte of an optional value.
    pub open spec fn encode_opt(x: Option<AutoModeWindSpeed>) -> Option<u8> {
        match x {
            Some(v) => Some(v.code()),
            None => None,
        }
    }

    /// Encodes an optional value as its wire byte.
    pub fn to_code(x: Option<AutoModeWindSpeed>) -> (r: Option<u8>)
        ensures
            r == AutoModeWindSpeed::encode_opt(x),
    {
        match x {
            Some(v) => Some(v.to_u8()),
            None => None,
        }
    }

    /// Decodes an optional wire byte.
    pub fn from_code(c: Option<u8>) -> (r: Option<AutoModeWindSpeed>)
        ensures
            r == AutoModeWindSpeed::decode_opt(c),
    {
        match c {
            Some(v) => match AutoModeWindSpeed::try_from(v) {
                Ok(x) => Some(x),
                Err(_) => None,
            },
            None => None,
        }
    }
}

impl vstd::std_specs::convert::TryFromSpecImpl<u8> for AutoModeWindSpeed {
    open spec fn obeys_try_from_spec() -> bool {
        true
    }

    open spec fn try_from_spec(v: u8) -> Result<AutoModeWindSpeed, ()> {
        AutoModeWindSpeed::decode(v)
    }
}

/// Decoding the wire byte of a auto-mode wind speed gives that auto-mode wind speed back.
pub proof fn lemma_auto_mode_wind_speed_code_roundtrip(x: AutoModeWindSpeed)
    ensures
        AutoModeWindSpeed::decode(x.code()) == Ok::<AutoModeWindSpeed, ()>(x),
{
}

/// A byte decodes to a auto-mode wind speed only if it is that auto-mode wind speed's wire byte.
pub proof fn lemma_auto_mode_wind_speed_decode_exact(v: u8)
    ensures
        AutoModeWindSpeed::decode(v) matches Ok(x) ==> x.code() == v,
{
}

/// Vertical air direction.
#[derive(Debug, PartialEq, Eq, Clone, Copy, Structural)]
pub enum VerticalDirection {
    TopMost,
    Top,
    Center,
    Bottom,
    BottomMost,
    Swing,
    Auto,
    Nice,
    Unknown,
}
impl VerticalDirection {
    /// The byte that stands for this vertical direction on the wire.
    pub open spec fn code(self) -> u8 {
        match self {
            VerticalDirection::TopMost => 0x01,
            VerticalDirection::Top => 0x02,
            VerticalDirection::Center => 0x03,
            VerticalDirection::Bottom => 0x04,
            VerticalDirection::BottomMost => 0x05,
            VerticalDirection::Swing => 0x0F,
            VerticalDirection::Auto => 0x10,
            VerticalDirection::Nice => 0x17,
            VerticalDirection::Unknown => 0xFF,
        }
    }

    /// The vertical direction that a wire byte stands for, if any.
    pub open spec fn decode(v: u8) -> Result<VerticalDirection, ()> {
        if v == 0x01 {
            Ok(VerticalDirection::TopMost)
        } else if v == 0x02 {
            Ok(VerticalDirection::Top)
        } else if v == 0x03 {
            Ok(VerticalDirection::Center)
        } else if v == 0x04 {
            Ok(VerticalDirection::Bottom)
        } else if v == 0x05 {
            Ok(VerticalDirection::BottomMost)
        } else if v == 0x0F {
            Ok(VerticalDirection::Swing)
        } else if v == 0x10 {
            Ok(VerticalDirection::Auto)
        } else if v == 0x17 {
            Ok(VerticalDirection::Nice)
        } else if v == 0xFF {
            Ok(VerticalDirection::Unknown)
        } else {
            Err(())
        }
    }

    /// The wire byte of this vertical direction.
    pub fn to_u8(self) -> (r: u8)
        ensures
            r == self.code(),
    {
        match self {
            VerticalDirection::TopMost => 0x01,
            VerticalDirection::Top => 0x02,
            VerticalDirection::Center => 0x03,
            VerticalDirection::Bottom => 0x04,
            VerticalDirection::BottomMost => 0x05,
            VerticalDirection::Swing => 0x0F,
            VerticalDirection::Auto => 0x10,
            VerticalDirection::Nice => 0x17,
            VerticalDirection::Unknown => 0xFF,
        }
    }
}

impl TryFrom<u8> for VerticalDirection {
    type Error = ();

    fn try_from(v: u8) -> (r: Result<VerticalDirection, ()>) {
        match v {
            0x01 => Ok(VerticalDirection::TopMost),
            0x02 => Ok(VerticalDirection::Top),
            0x03 => Ok(VerticalDirection::Center),
            0x04 => Ok(VerticalDirection::Bottom),
            0x05 => Ok(VerticalDirection::BottomMost),
            0x0F => Ok(VerticalDirection::Swing),
            0x10 => Ok(VerticalDirection::Auto),
            0x17 => Ok(VerticalDirection::Nice),
            0xFF => Ok(VerticalDirection::Unknown),
            _ => Err(()),
        }
    }
}

impl VerticalDirection {
    /// The value that an optional wire byte stands for; nothing for an
    /// absent or unknown byte.
    pub open spec fn decode_opt(c: Option<u8>) -> Option<VerticalDirection> {
        match c {
            Some(v) => match VerticalDirection::decode(v) {
                Ok(x) => Some(x),
                Err(_) => None,
            },
            None => None,
        }
    }

    /// The wire byte of an optional value.
    pub open spec fn encode_opt(x: Option<VerticalDirection>) -> Option<u8> {
        match x {
            Some(v) => Some(v.code()),
            None => None,
        }
    }

    /// Encodes an optional value as its wire byte.
    pub fn to_code(x: Option<VerticalDirection>) -> (r: Option<u8>)
        ensures
            r == VerticalDirection::encode_opt(x),
    {
        match x {
            Some(v) => Some(v.to_u8()),
            None => None,
        }
    }

    /// Decodes an optional wire byte.
    pub fn from_code(c: Option<u8>) -> (r: Option<VerticalDirection>)
        ensures
            r == VerticalDirection::decode_opt(c),
    {
        match c {
            Some(v) => match VerticalDirection::try_from(v) {
                Ok(x) => Some(x),
                Err(_) => None,
            },
            None => None,
        }
    }
}

impl vstd::std_specs::convert::TryFromSpecImpl<u8> for VerticalDirection {
    open spec fn obeys_try_from_spec() -> bool {
        true
    }

    open spec fn try_from_spec(v: u8) -> Result<VerticalDirection, ()> {
        VerticalDirection::decode(v)
    }
}

/// Decoding the wire byte of a vertical direction gives that vertical direction back.
pub proof fn lemma_vertical_direction_code_roundtrip(x: VerticalDirection)
    ensures
        VerticalDirection::decode(x.code()) == Ok::<VerticalDirection, ()>(x),
{
}

/// A byte decodes to a vertical direction only if it is that vertical direction's wire byte.
pub proof fn lemma_vertical_direction_decode_exact(v: u8)
    ensures
        VerticalDirection::decode(v) matches Ok(x) ==> x.code() == v,
{
}

/// Horizontal air direction.
#[derive(Debug, PartialEq, Eq, Clone, Copy, Structural)]
pub enum HorizontalDirection {
    LeftMost,
    Left,
    LeftCenter,
    Center,
    RightCenter,
    Right,
    RightMost,
    Swing,
    Auto,
    Unknown,
}
impl HorizontalDirection {
    /// The byte that stands for this horizontal direction on the wire.
    pub open spec fn code(self) -> u8 {
        match self {
            HorizontalDirection::LeftMost => 0x02,
            HorizontalDirection::Left => 0x03,
            HorizontalDirection::LeftCenter => 0x04,
            HorizontalDirection::Center => 0x05,
            HorizontalDirection::RightCenter => 0x06,
            HorizontalDirection::Right => 0x07,
            HorizontalDirection::RightMost => 0x08,
            HorizontalDirection::Swing => 0x0F,
            HorizontalDirection::Auto => 0x10,
            HorizontalDirection::Unknown => 0xFF,
        }
    }

    /// The horizontal direction that a wire byte stands for, if any.
    pub open spec fn decode(v: u8) -> Result<HorizontalDirection, ()> {
        if v == 0x02 {
            Ok(HorizontalDirection::LeftMost)
        } else if v == 0x03 {
            Ok(HorizontalDirection::Left)
        } else if v == 0x04 {
            Ok(HorizontalDirection::LeftCenter)
        } else if v == 0x05 {
            Ok(HorizontalDirection::Center)
        } else if v == 0x06 {
            Ok(HorizontalDirection::RightCenter)
        } else if v == 0x07 {
            Ok(HorizontalDirection::Right)
        } else if v == 0x08 {
            Ok(HorizontalDirection::RightMost)
        } else if v == 0x0F {
            Ok(HorizontalDirection::Swing)
        } else if v == 0x10 {
            Ok(HorizontalDirection::Auto)
        } else if v == 0xFF {
            Ok(HorizontalDirection::Unknown)
        } else {
            Err(())
        }
    }

    /// The wire byte of this horizontal direction.
    pub fn to_u8(self) -> (r: u8)
        ensures
            r == self.code(),
    {
        match self {
            HorizontalDirection::LeftMost => 0x02,
            HorizontalDirection::Left => 0x03,
            HorizontalDirection::LeftCenter => 0x04,
            HorizontalDirection::Center => 0x05,
            HorizontalDirection::RightCenter => 0x06,
            HorizontalDirection::Right => 0x07,
            HorizontalDirection::RightMost => 0x08,
            HorizontalDirection::Swing => 0x0F,
            HorizontalDirection::Auto => 0x10,
            HorizontalDirection::Unknown => 0xFF,
        }
    }
}

impl TryFrom<u8> for HorizontalDirection {
    type Error = ();

    fn try_from(v: u8) -> (r: Result<HorizontalDirection, ()>) {
        match v {
            0x02 => Ok(HorizontalDirection::LeftMost),
            0x03 => Ok(HorizontalDirection::Left),
            0x04 => Ok(HorizontalDirection::LeftCenter),
            0x05 => Ok(HorizontalDirection::Center),
            0x06 => Ok(HorizontalDirection::RightCenter),
            0x07 => Ok(HorizontalDirection::Right),
            0x08 => Ok(HorizontalDirection::RightMost),
            0x0F => Ok(HorizontalDirection::Swing),
            0x10 => Ok(HorizontalDirection::Auto),
            0xFF => Ok(HorizontalDirection::Unknown),
            _ => Err(()),
        }
    }
}

impl HorizontalDirection {
    /// The value that an optional wire byte stands for; nothing for an
    /// absent or unknown byte.
    pub open spec fn decode_opt(c: Option<u8>) -> Option<HorizontalDirection> {
        match c {
            Some(v) => match HorizontalDirection::decode(v) {
                Ok(x) => Some(x),
                Err(_) => None,
            },
            None => None,
        }
    }

    /// The wire byte of an optional value.
    pub open spec fn encode_opt(x: Option<HorizontalDirection>) -> Option<u8> {
        match x {
            Some(v) => Some(v.code()),
            None => None,
        }
    }

    /// Encodes an optional value as its wire byte.
    pub fn to_code(x: Option<HorizontalDirection>) -> (r: Option<u8>)
        ensures
            r == HorizontalDirection::encode_opt(x),
    {
        match x {
            Some(v) => Some(v.to_u8()),
            None => None,
        }
    }

    /// Decodes an optional wire byte.
    pub fn from_code(c: Option<u8>) -> (r: Option<HorizontalDirection>)
        ensures
            r == HorizontalDirection::decode_opt(c),
    {
        match c {
            Some(v) => match HorizontalDirection::try_from(v) {
                Ok(x) => Some(x),
                Err(_) => None,
            },
            None => None,
        }
    }
}

impl vstd::std_specs::convert::TryFromSpecImpl<u8> for HorizontalDirection {
    open spec fn obeys_try_from_spec() -> bool {
        true
    }

    open spec fn try_from_spec(v: u8) -> Result<HorizontalDirection, ()> {
        HorizontalDirection::decode(v)
    }
}

/// Decoding the wire byte of a horizontal direction gives that horizontal direction back.
pub proof fn lemma_horizontal_direction_code_roundtrip(x: HorizontalDirection)
    ensures
        HorizontalDirection::decode(x.code()) == Ok::<HorizontalDirection, ()>(x),
{
}

/// A byte decodes to a horizontal direction only if it is that horizontal direction's wire byte.
pub proof fn lemma_horizontal_direction_decode_exact(v: u8)
    ensures
        HorizontalDirection::decode(v) matches Ok(x) ==> x.code() == v,
{
}

/// Decoding the wire byte of an optional mode gives it back.
pub proof fn lemma_mode_opt_roundtrip(x: Option<Mode>)
    ensures
        Mode::decode_opt(Mode::encode_opt(x)) == x,
{
    if let Some(v) = x {
        lemma_mode_code_roundtrip(v);
    }
}

/// Decoding the wire byte of an optional wind speed gives it back.
pub proof fn lemma_wind_speed_opt_roundtrip(x: Option<WindSpeed>)
    ensures
        WindSpeed::decode_opt(WindSpeed::encode_opt(x)) == x,
{
    if let Some(v) = x {
        lemma_wind_speed_code_roundtrip(v);
    }
}

/// Decoding the wire byte of an optional auto mode wind speed gives it back.
pub proof fn lemma_auto_mode_wind_speed_opt_roundtrip(x: Option<AutoModeWindSpeed>)
    ensures
        AutoModeWindSpeed::decode_opt(AutoModeWindSpeed::encode_opt(x)) == x,
{
    if let Some(v) = x {
        lemma_auto_mode_wind_speed_code_roundtrip(v);
    }
}

/// Decoding the wire byte of an optional vertical direction gives it back.
pub proof fn lemma_vertical_direction_opt_roundtrip(x: Option<VerticalDirection>)
    ensures
        VerticalDirection::decode_opt(VerticalDirection::encode_opt(x)) == x,
{
    if let Some(v) = x {
        lemma_vertical_direction_code_roundtrip(v);
    }
}

/// Decoding the wire byte of an optional horizontal direction gives it back.
pub proof fn lemma_horizontal_direction_opt_roundtrip(x: Option<HorizontalDirection>)
    ensures
        HorizontalDirection::decode_opt(HorizontalDirection::encode_opt(x)) == x,
{
    if let Some(v) = x {
        lemma_horizontal_direction_code_roundtrip(v);
    }
}

/// The DSIOT wire bytes of `Mode`: each byte of the protocol's table decodes
/// to its variant and encodes back to that byte, and no other byte decodes.
pub proof fn lemma_mode_wire_table(v: u8)
    ensures
        Mode::decode(0u8) == Ok::<Mode, ()>(Mode::Fan),
        Mode::decode(1u8) == Ok::<Mode, ()>(Mode::Heating),
        Mode::decode(2u8) == Ok::<Mode, ()>(Mode::Cooling),
        Mode::decode(3u8) == Ok::<Mode, ()>(Mode::Auto),
        Mode::decode(5u8) == Ok::<Mode, ()>(Mode::Dehumidify),
        Mode::decode(255u8) == Ok::<Mode, ()>(Mode::Unknown),
        Mode::Fan.code() == 0u8,
        Mode::Heating.code() == 1u8,
        Mode::Cooling.code() == 2u8,
        Mode::Auto.code() == 3u8,
        Mode::Dehumidify.code() == 5u8,
        Mode::Unknown.code() == 255u8,
        Mode::decode(v) is Ok <==> (v == 0 || v == 1 || v == 2 || v == 3 || v == 5 || v == 255),
{
}

/// The DSIOT wire bytes of `WindSpeed`: each byte of the protocol's table decodes
/// to its variant and encodes back to that byte, and no other byte decodes.
pub proof fn lemma_wind_speed_wire_table(v: u8)
    ensures
        WindSpeed::decode(0x0Bu8) == Ok::<WindSpeed, ()>(WindSpeed::Silent),
        WindSpeed::decode(0x03u8) == Ok::<WindSpeed, ()>(WindSpeed::Lev1),
        WindSpeed::decode(0x04u8) == Ok::<WindSpeed, ()>(WindSpeed::Lev2),
        WindSpeed::decode(0x05u8) == Ok::<WindSpeed, ()>(WindSpeed::Lev3),
        WindSpeed::decode(0x06u8) == Ok::<WindSpeed, ()>(WindSpeed::Lev4),
        WindSpeed::decode(0x07u8) == Ok::<WindSpeed, ()>(WindSpeed::Lev5),
        WindSpeed::decode(0x0Au8) == Ok::<WindSpeed, ()>(WindSpeed::Auto),
        WindSpeed::decode(0xFFu8) == Ok::<WindSpeed, ()>(WindSpeed::Unknown),
        WindSpeed::Silent.code() == 0x0Bu8,
        WindSpeed::Lev1.code() == 0x03u8,
        WindSpeed::Lev2.code() == 0x04u8,
        WindSpeed::Lev3.code() == 0x05u8,
        WindSpeed::Lev4.code() == 0x06u8,
        WindSpeed::Lev5.code() == 0x07u8,
        WindSpeed::Auto.code() == 0x0Au8,
        WindSpeed::Unknown.code() == 0xFFu8,
        WindSpeed::decode(v) is Ok <==> (v == 0x0B || v == 0x03 || v == 0x04 || v == 0x05 || v == 0x06 || v == 0x07 || v == 0x0A || v == 0xFF),
{
}

/// The DSIOT wire bytes of `AutoModeWindSpeed`: each byte of the protocol's table decodes
/// to its variant and encodes back to that byte, and no other byte decodes.
pub proof fn lemma_auto_mode_wind_speed_wire_table(v: u8)
    ensures
        AutoModeWindSpeed::decode(0x0Bu8) == Ok::<AutoModeWindSpeed, ()>(AutoModeWindSpeed::Silent),
        AutoModeWindSpeed::decode(0x0Au8) == Ok::<AutoModeWindSpeed, ()>(AutoModeWindSpeed::Auto),
        AutoModeWindSpeed::decode(0xFFu8) == Ok::<AutoModeWindSpeed, ()>(AutoModeWindSpeed::Unknown),
        AutoModeWindSpeed::Silent.code() == 0x0Bu8,
        AutoModeWindSpeed::Auto.code() == 0x0Au8,
        AutoModeWindSpeed::Unknown.code() == 0xFFu8,
        AutoModeWindSpeed::decode(v) is Ok <==> (v == 0x0B || v == 0x0A || v == 0xFF),
{
}

/// The DSIOT wire bytes of `VerticalDirection`: each byte of the protocol's table decodes
/// to its variant and encodes back to that byte, and no other byte decodes.
pub proof fn lemma_vertical_direction_wire_table(v: u8)
    ensures
        VerticalDirection::decode(0x01u8) == Ok::<VerticalDirection, ()>(VerticalDirection::TopMost),
        VerticalDirection::decode(0x02u8) == Ok::<VerticalDirection, ()>(VerticalDirection::Top),
        VerticalDirection::decode(0x03u8) == Ok::<VerticalDirection, ()>(VerticalDirection::Center),
        VerticalDirection::decode(0x04u8) == Ok::<VerticalDirection, ()>(VerticalDirection::Bottom),
        VerticalDirection::decode(0x05u8) == Ok::<VerticalDirection, ()>(VerticalDirection::BottomMost),
        VerticalDirection::decode(0x0Fu8) == Ok::<VerticalDirection, ()>(VerticalDirection::Swing),
        VerticalDirection::decode(0x10u8) == Ok::<VerticalDirection, ()>(VerticalDirection::Auto),
        VerticalDirection::decode(0x17u8) == Ok::<VerticalDirection, ()>(VerticalDirection::Nice),
        VerticalDirection::decode(0xFFu8) == Ok::<VerticalDirection, ()>(VerticalDirection::Unknown),
        VerticalDirection::TopMost.code() == 0x01u8,
        VerticalDirection::Top.code() == 0x02u8,
        VerticalDirection::Center.code() == 0x03u8,
        VerticalDirection::Bottom.code() == 0x04u8,
        VerticalDirection::BottomMost.code() == 0x05u8,
        VerticalDirection::Swing.code() == 0x0Fu8,
        VerticalDirection::Auto.code() == 0x10u8,
        VerticalDirection::Nice.code() == 0x17u8,
        VerticalDirection::Unknown.code() == 0xFFu8,
        VerticalDirection::decode(v) is Ok <==> (v == 0x01 || v == 0x02 || v == 0x03 || v == 0x04 || v == 0x05 || v == 0x0F || v == 0x10 || v == 0x17 || v == 0xFF),
{
}

/// The DSIOT wire bytes of `HorizontalDirection`: each byte of the protocol's table decodes
/// to its variant and encodes back to that byte, and no other byte decodes.
pub proof fn lemma_horizontal_direction_wire_table(v: u8)
    ensures
        HorizontalDirection::decode(0x02u8) == Ok::<HorizontalDirection, ()>(HorizontalDirection::LeftMost),
        HorizontalDirection::decode(0x03u8) == Ok::<HorizontalDirection, ()>(HorizontalDirection::Left),
        HorizontalDirection::decode(0x04u8) == Ok::<HorizontalDirection, ()>(HorizontalDirection::LeftCenter),
        HorizontalDirection::decode(0x05u8) == Ok::<HorizontalDirection, ()>(HorizontalDirection::Center),
        HorizontalDirection::decode(0x06u8) == Ok::<HorizontalDirection, ()>(HorizontalDirection::RightCenter),
        HorizontalDirection::decode(0x07u8) == Ok::<HorizontalDirection, ()>(HorizontalDirection::Right),
        HorizontalDirection::decode(0x08u8) == Ok::<HorizontalDirection, ()>(HorizontalDirection::RightMost),
        HorizontalDirection::decode(0x0Fu8) == Ok::<HorizontalDirection, ()>(HorizontalDirection::Swing),
        HorizontalDirection::decode(0x10u8) == Ok::<HorizontalDirection, ()>(HorizontalDirection::Auto),
        HorizontalDirection::decode(0xFFu8) == Ok::<HorizontalDirection, ()>(HorizontalDirection::Unknown),
        HorizontalDirection::LeftMost.code() == 0x02u8,
        HorizontalDirection::Left.code() == 0x03u8,
        HorizontalDirection::LeftCenter.code() == 0x04u8,
        HorizontalDirection::Center.code() == 0x05u8,
        HorizontalDirection::RightCenter.code() == 0x06u8,
        HorizontalDirection::Right.code() == 0x07u8,
        HorizontalDirection::RightMost.code() == 0x08u8,
        HorizontalDirection::Swing.code() == 0x0Fu8,
        HorizontalDirection::Auto.code() == 0x10u8,
        HorizontalDirection::Unknown.code() == 0xFFu8,
        HorizontalDirection::decode(v) is Ok <==> (v == 0x02 || v == 0x03 || v == 0x04 || v == 0x05 || v == 0x06 || v == 0x07 || v == 0x08 || v == 0x0F || v == 0x10 || v == 0xFF),
{
}

} // verus!
