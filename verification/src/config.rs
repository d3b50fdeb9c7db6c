use std::collections::BTreeMap;

use vstd::prelude::*;

use crate::controller::joypad::{button_at, Button, ButtonStatus, ALL_BUTTONS};
use crate::util::number::{capped, lemma_capped_step};

verus! {

broadcast use vstd::std_specs::btree::group_btree_axioms;

/// The text with every character lowercased, as `str::to_lowercase` makes it.
pub uninterp spec fn lowercased(text: Seq<char>) -> Seq<char>;

/// Calls `str::to_lowercase`. Claimed: the result is the named lowercase text.
#[verifier::external_body]
fn to_lowercase(text: &str) -> (lower: String)
    ensures
        lower@ == lowercased(text@),
{
    text.to_lowercase()
}

/// The value of a nonempty string of decimal digits.
pub open spec fn decimal_value(digits: Seq<char>) -> int
    decreases digits.len(),
{
    if digits.len() == 0 {
        0
    } else {
        decimal_value(digits.drop_last()) * 10 + (digits.last() as int - '0' as int)
    }
}

/// Every character is an ASCII digit.
pub open spec fn all_decimal_digits(digits: Seq<char>) -> bool {
    forall|i: int| 0 <= i < digits.len() ==> '0' <= #[trigger] digits[i] && digits[i] <= '9'
}

/// What `i64::from_str` gives: an optional `+` or `-` sign, then at least one decimal digit, for
/// a value in range.
pub open spec fn parsed_i64(text: Seq<char>) -> Option<i64> {
    let negative = text.len() > 0 && text[0] == '-';
    let digits = if text.len() > 0 && (text[0] == '-' || text[0] == '+') { text.drop_first() } else { text };
    let value = if negative { -decimal_value(digits) } else { decimal_value(digits) };
    if digits.len() > 0 && all_decimal_digits(digits) && i64::MIN <= value <= i64::MAX {
        Some(value as i64)
    } else {
        None
    }
}

/// A string of decimal digits has a value of at least zero.
proof fn lemma_decimal_value_nonnegative(digits: Seq<char>)
    requires
        all_decimal_digits(digits),
    ensures
        decimal_value(digits) >= 0,
    decreases digits.len(),
{
    if digits.len() > 0 {
        assert(all_decimal_digits(digits.drop_last())) by {
            assert forall|i: int| 0 <= i < digits.drop_last().len() implies '0' <= #[trigger] digits.drop_last()[i]
                && digits.drop_last()[i] <= '9' by {
                assert(digits.drop_last()[i] == digits[i]);
            }
        }
        lemma_decimal_value_nonnegative(digits.drop_last());
        assert('0' <= digits[digits.len() - 1]);
    }
}

/// Parses a decimal `i64`, as `str::parse::<i64>` does: an optional `+` or `-` sign, then at
/// least one decimal digit, for a value in range.
fn parse_i64(text: &str) -> (value: Option<i64>)
    ensures
        value == parsed_i64(text@),
{
    let len = text.unicode_len();
    if len == 0 {
        return None;
    }
    let first = text.get_char(0);
    let negative = first == '-';
    let start: usize = if first == '-' || first == '+' { 1 } else { 0 };
    let ghost digits = if text@[0] == '-' || text@[0] == '+' { text@.drop_first() } else { text@ };
    assert(digits =~= text@.subrange(start as int, len as int));
    if start == len {
        return None;
    }
    let cap: u128 = 0x8000_0000_0000_0001;
    let mut value: u128 = 0;
    let mut i: usize = start;
    assert(text@.subrange(start as int, start as int) =~= Seq::<char>::empty());
    while i < len
        invariant
            start <= i <= len,
            len == text@.len(),
            digits == text@.subrange(start as int, len as int),
            digits == if text@[0] == '-' || text@[0] == '+' { text@.drop_first() } else { text@ },
            negative == (text@[0] == '-'),
            cap == 0x8000_0000_0000_0001,
            value == capped(decimal_value(text@.subrange(start as int, i as int)), cap as int),
            decimal_value(text@.subrange(start as int, i as int)) >= 0,
            all_decimal_digits(text@.subrange(start as int, i as int)),
        decreases len - i,
    {
        let c = text.get_char(i);
        if !('0' <= c && c <= '9') {
            assert(digits[i - start] == c);
            return None;
        }
        let digit = c as u32 - '0' as u32;
        let ghost prefix = text@.subrange(start as int, i as int);
        let ghost next_prefix = text@.subrange(start as int, i + 1);
        proof {
            assert(next_prefix.drop_last() =~= prefix);
            assert(next_prefix.last() == c);
            lemma_capped_step(decimal_value(prefix), cap as int, 10, digit as int);
            assert forall|k: int| 0 <= k < next_prefix.len() implies '0' <= #[trigger] next_prefix[k]
                && next_prefix[k] <= '9' by {
                if k < prefix.len() {
                    assert(next_prefix[k] == prefix[k]);
                }
            }
        }
        assert(value <= cap);
        let next = value * 10 + digit as u128;
        value = if next > cap { cap } else { next };
        i = i + 1;
    }
    if negative {
        if value > 0x8000_0000_0000_0000 {
            None
        } else if value == 0x8000_0000_0000_0000 {
            Some(i64::MIN)
        } else {
            Some(-(value as i64))
        }
    } else if value > 0x7FFF_FFFF_FFFF_FFFF {
        None
    } else {
        Some(value as i64)
    }
}

/// The name by which a button is scheduled on the command line.
pub open spec fn button_name(button: Button) -> Seq<char> {
    match button {
        Button::A => "a"@,
        Button::B => "b"@,
        Button::Select => "select"@,
        Button::Start => "start"@,
        Button::Up => "up"@,
        Button::Down => "down"@,
        Button::Left => "left"@,
        Button::Right => "right"@,
    }
}

fn button_text(button: Button) -> (name: &'static str)
    ensures
        name@ == button_name(button),
{
    match button {
        Button::A => "a",
        Button::B => "b",
        Button::Select => "select",
        Button::Start => "start",
        Button::Up => "up",
        Button::Down => "down",
        Button::Left => "left",
        Button::Right => "right",
    }
}

/// A character with ASCII uppercase letters lowercased.
pub open spec fn ascii_lower(c: char) -> char {
    if 'A' <= c && c <= 'Z' {
        ((c as u32) + 32) as char
    } else {
        c
    }
}

/// `prefix`, all lowercase, begins `text` once ASCII letters are lowercased.
pub open spec fn starts_with_ascii_lowercase(text: Seq<char>, prefix: Seq<char>) -> bool {
    prefix.len() <= text.len() && forall|i: int| 0 <= i < prefix.len() ==> ascii_lower(text[i]) == prefix[i]
}

fn ascii_lower_char(c: char) -> (lower: char)
    ensures
        lower == ascii_lower(c),
{
    if 'A' <= c && c <= 'Z' {
        let code = c as u32;
        assert(65 <= code <= 90);
        ((code + 32) as u8) as char
    } else {
        c
    }
}

fn starts_with_lowercase(text: &str, prefix: &str) -> (starts: bool)
    ensures
        starts == starts_with_ascii_lowercase(text@, prefix@),
{
    let text_len = text.unicode_len();
    let prefix_len = prefix.unicode_len();
    if prefix_len > text_len {
        return false;
    }
    let mut i: usize = 0;
    while i < prefix_len
        invariant
            prefix_len == prefix@.len(),
            text_len == text@.len(),
            prefix_len <= text_len,
            i <= prefix_len,
            forall|j: int| 0 <= j < i ==> ascii_lower(text@[j]) == prefix@[j],
        decreases prefix_len - i,
    {
        if ascii_lower_char(text.get_char(i)) != prefix.get_char(i) {
            return false;
        }
        i = i + 1;
    }
    true
}

/// The events that a scheduled press of `button` adds, if the raw press names it: pressed on
/// its frame, released on the next.
pub open spec fn with_button_press(
    events: Map<i64, (Button, ButtonStatus)>,
    raw_press: Seq<char>,
    button: Button,
) -> Map<i64, (Button, ButtonStatus)> {
    let name = button_name(button);
    if starts_with_ascii_lowercase(raw_press, name) {
        let frame = parsed_i64(raw_press.skip(name.len() as int)).unwrap();
        events.insert(frame, (button, ButtonStatus::Pressed)).insert((frame + 1) as i64, (button, ButtonStatus::Unpressed))
    } else {
        events
    }
}

/// The events after a raw press is checked against the first `count` buttons.
pub open spec fn with_press(events: Map<i64, (Button, ButtonStatus)>, raw_press: Seq<char>, count: nat) -> Map<i64, (Button, ButtonStatus)>
    decreases count,
{
    if count == 0 {
        events
    } else {
        with_button_press(with_press(events, raw_press, (count - 1) as nat), raw_press, button_at(count - 1))
    }
}

/// The events of all the raw presses, by frame.
pub open spec fn scheduled_events(raw_presses: Seq<Seq<char>>) -> Map<i64, (Button, ButtonStatus)>
    decreases raw_presses.len(),
{
    if raw_presses.len() == 0 {
        Map::empty()
    } else {
        with_press(scheduled_events(raw_presses.drop_last()), raw_presses.last(), 8)
    }
}

/// A raw press that names a button gives a frame number after the name, with room for the next
/// frame.
pub open spec fn press_is_well_formed(raw_press: Seq<char>) -> bool {
    forall|k: int| 0 <= k < 8 && #[trigger] starts_with_ascii_lowercase(raw_press, button_name(button_at(k))) ==> {
        let frame = parsed_i64(raw_press.skip(button_name(button_at(k)).len() as int));
        frame is Some && frame.unwrap() < i64::MAX
    }
}

/// Whether a raw press that names a button gives a frame number with room for the next frame.
fn check_press(raw_press: &String) -> (well_formed: bool)
    ensures
        well_formed == press_is_well_formed(raw_press@),
{
    let press = raw_press.as_str();
    let mut k: usize = 0;
    while k < 8
        invariant
            k <= 8,
            press@ == raw_press@,
            forall|j: int| 0 <= j < k && #[trigger] starts_with_ascii_lowercase(raw_press@, button_name(button_at(j))) ==> {
                let frame = parsed_i64(raw_press@.skip(button_name(button_at(j)).len() as int));
                frame is Some && frame.unwrap() < i64::MAX
            },
        decreases 8 - k,
    {
        let button = ALL_BUTTONS[k];
        assert(button == button_at(k as int));
        let button_text = button_text(button);
        if starts_with_lowercase(press, button_text) {
            let name_len = button_text.unicode_len();
            let press_len = press.unicode_len();
            let raw_frame_number = press.substring_char(name_len, press_len);
            assert(raw_frame_number@ =~= raw_press@.skip(button_name(button).len() as int));
            match parse_i64(raw_frame_number) {
                Some(frame) => {
                    if frame == i64::MAX {
                        return false;
                    }
                },
                None => {
                    return false;
                },
            }
        }
        k = k + 1;
    }
    true
}

/// Scheduling a press of button `button` and all before it.
fn schedule_press(events: &mut BTreeMap<i64, (Button, ButtonStatus)>, raw_press: &String)
    requires
        press_is_well_formed(raw_press@),
    ensures
        final(events)@ == with_press(old(events)@, raw_press@, 8),
{
    let mut k: usize = 0;
    while k < 8
        invariant
            k <= 8,
            press_is_well_formed(raw_press@),
            events@ == with_press(old(events)@, raw_press@, k as nat),
        decreases 8 - k,
    {
        let button = ALL_BUTTONS[k];
        assert(button == button_at(k as int));
        let button_text = button_text(button);
        let press = raw_press.as_str();
        if starts_with_lowercase(press, button_text) {
            let name_len = button_text.unicode_len();
            let press_len = press.unicode_len();
            let raw_frame_number = press.substring_char(name_len, press_len);
            assert(raw_frame_number@ =~= raw_press@.skip(button_name(button).len() as int));
            let frame_number = parse_i64(raw_frame_number).unwrap();
            events.insert(frame_number, (button, ButtonStatus::Pressed));
            events.insert(frame_number + 1, (button, ButtonStatus::Unpressed));
        }
        k = k + 1;
    }
}

/// What the emulator runs with, as the options chose it.
pub struct Config {
    pub starting_cpu_cycle: i64,
    pub disable_audio: bool,
    pub stop_frame: Option<i64>,
    pub frame_dump: bool,
    pub cpu_step_formatting: CpuStepFormatting,
    pub allow_saving: bool,
    pub scheduled_button_events: BTreeMap<i64, (Button, ButtonStatus)>,
}

impl Config {
    /// The configuration that the options describe: saving unless prevented, and each scheduled
    /// press as a press and a release.
    pub open spec fn is_config_of(&self, opt: &Opt) -> bool {
        &&& self.starting_cpu_cycle == 0
        &&& self.disable_audio == opt.disable_audio
        &&& self.stop_frame == opt.stop_frame
        &&& self.frame_dump == opt.frame_dump
        &&& self.cpu_step_formatting == opt.cpu_step_formatting
        &&& self.allow_saving == !opt.prevent_saving
        &&& self.scheduled_button_events@ == scheduled_events(opt.scheduled_button_presses@.map_values(|s: String| s@))
    }

    /// Every scheduled press names its frame, and no two presses share a frame (each adds a
    /// press and a release of its own).
    pub open spec fn presses_are_valid(opt: &Opt) -> bool {
        &&& forall|i: int| 0 <= i < opt.scheduled_button_presses@.len()
            ==> press_is_well_formed(#[trigger] opt.scheduled_button_presses@[i]@)
        &&& scheduled_events(opt.scheduled_button_presses@.map_values(|s: String| s@)).len()
            == 2 * opt.scheduled_button_presses@.len()
    }

    pub fn new(opt: &Opt) -> (config: Config)
        requires
            Config::presses_are_valid(opt),
        ensures
            config.is_config_of(opt),
    {
        Config {
            starting_cpu_cycle: 0,
            disable_audio: opt.disable_audio,
            stop_frame: opt.stop_frame,
            frame_dump: opt.frame_dump,
            cpu_step_formatting: opt.cpu_step_formatting,
            allow_saving: !opt.prevent_saving,
            scheduled_button_events: Config::parse_scheduled_button_events(&opt.scheduled_button_presses),
        }
    }

    /// The configuration of the options, or none where `new` would stop: a scheduled press
    /// without a frame number, or presses that share frames.
    pub fn try_new(opt: &Opt) -> (config: Option<Config>)
        ensures
            config is Some <==> Config::presses_are_valid(opt),
            config matches Some(c) ==> c.is_config_of(opt),
    {
        let presses = &opt.scheduled_button_presses;
        let mut i: usize = 0;
        while i < presses.len()
            invariant
                presses@ == opt.scheduled_button_presses@,
                i <= presses@.len(),
                forall|j: int| 0 <= j < i ==> press_is_well_formed(#[trigger] presses@[j]@),
            decreases presses@.len() - i,
        {
            if !check_press(&presses[i]) {
                assert(!press_is_well_formed(opt.scheduled_button_presses@[i as int]@));
                return None;
            }
            i = i + 1;
        }
        let events = Config::parse_scheduled_button_events(presses);
        let count = events.len();
        if count % 2 != 0 || count / 2 != presses.len() {
            return None;
        }
        Some(Config::new(opt))
    }

    fn parse_scheduled_button_events(raw_presses: &Vec<String>) -> (events: BTreeMap<i64, (Button, ButtonStatus)>)
        requires
            forall|i: int| 0 <= i < raw_presses@.len() ==> press_is_well_formed(#[trigger] raw_presses@[i]@),
        ensures
            events@ == scheduled_events(raw_presses@.map_values(|s: String| s@)),
    {
        let mut events: BTreeMap<i64, (Button, ButtonStatus)> = BTreeMap::new();
        let mut i: usize = 0;
        while i < raw_presses.len()
            invariant
                i <= raw_presses@.len(),
                forall|j: int| 0 <= j < raw_presses@.len() ==> press_is_well_formed(#[trigger] raw_presses@[j]@),
                events@ == scheduled_events(raw_presses@.take(i as int).map_values(|s: String| s@)),
            decreases raw_presses@.len() - i,
        {
            let ghost before = raw_presses@.take(i as int).map_values(|s: String| s@);
            schedule_press(&mut events, &raw_presses[i]);
            assert(raw_presses@.take(i + 1).map_values(|s: String| s@).drop_last() =~= before);
            i = i + 1;
        }
        assert(raw_presses@.take(i as int) =~= raw_presses@);
        events
    }
}

/// The command-line options.
#[derive(Clone, Debug)]
pub struct Opt {
    pub rom_path: Option<String>,
    pub gui: GuiType,
    pub stop_frame: Option<i64>,
    pub disable_audio: bool,
    pub log_cpu_all: bool,
    pub log_cpu_instructions: bool,
    pub log_cpu_flow_control: bool,
    pub log_cpu_mode: bool,
    pub log_detailed_cpu_mode: bool,
    pub log_frames: bool,
    pub log_cpu_steps: bool,
    pub log_ppu_all: bool,
    pub log_ppu_stages: bool,
    pub log_ppu_flags: bool,
    pub log_ppu_steps: bool,
    pub log_apu_all: bool,
    pub log_apu_cycles: bool,
    pub log_apu_events: bool,
    pub log_oam_addr: bool,
    pub log_mapper_updates: bool,
    pub log_mapper_irq_counter: bool,
    pub log_timings: bool,
    pub cpu_step_formatting: CpuStepFormatting,
    pub frame_dump: bool,
    pub prevent_saving: bool,
    pub scheduled_button_presses: Vec<String>,
}

impl Opt {
    /// The options for a ROM with every option at its default: the egui GUI, detailed CPU steps,
    /// no logging, no stop frame, audio and saving on, no scheduled presses.
    pub fn new(rom_path: Option<String>) -> (opt: Self)
        ensures
            opt.rom_path == rom_path,
            opt.gui == GuiType::Egui,
            opt.stop_frame is None,
            !opt.disable_audio,
            !opt.log_frames && !opt.log_cpu_all && !opt.log_ppu_all && !opt.log_apu_all,
            !opt.log_cpu_instructions && !opt.log_cpu_flow_control && !opt.log_cpu_mode,
            !opt.log_detailed_cpu_mode && !opt.log_cpu_steps,
            !opt.log_ppu_stages && !opt.log_ppu_flags && !opt.log_ppu_steps && !opt.log_oam_addr,
            !opt.log_apu_cycles && !opt.log_apu_events,
            !opt.log_mapper_updates && !opt.log_mapper_irq_counter && !opt.log_timings,
            opt.cpu_step_formatting == CpuStepFormatting::Data,
            !opt.frame_dump,
            !opt.prevent_saving,
            opt.scheduled_button_presses@.len() == 0,
    {
        Self {
            rom_path,
            gui: GuiType::Egui,
            stop_frame: None,
            disable_audio: false,
            log_frames: false,
            log_cpu_all: false,
            log_ppu_all: false,
            log_apu_all: false,
            log_cpu_instructions: false,
            log_cpu_flow_control: false,
            log_cpu_mode: false,
            log_detailed_cpu_mode: false,
            log_cpu_steps: false,
            log_ppu_stages: false,
            log_ppu_flags: false,
            log_ppu_steps: false,
            log_oam_addr: false,
            log_apu_cycles: false,
            log_apu_events: false,
            log_mapper_updates: false,
            log_mapper_irq_counter: false,
            log_timings: false,
            cpu_step_formatting: CpuStepFormatting::Data,
            frame_dump: false,
            prevent_saving: false,
            scheduled_button_presses: Vec::new(),
        }
    }
}

/// Which GUI the emulator shows.
#[derive(Clone, Copy, Debug, PartialEq, Eq, Structural)]
pub enum GuiType {
    NoGui,
    Egui,
}

impl GuiType {
    /// Parses a GUI type, ignoring case: "nogui" or "egui".
    pub fn parse(value: &str) -> (result: Result<GuiType, String>)
        ensures
            result == if lowercased(value@) == "nogui"@ {
                Ok::<GuiType, String>(GuiType::NoGui)
            } else if lowercased(value@) == "egui"@ {
                Ok(GuiType::Egui)
            } else {
                Err(result->Err_0)
            },
            result matches Err(message) ==> message@ == "Invalid gui type: "@ + value@,
    {
        let lower = to_lowercase(value);
        let no_gui = String::from_str("nogui");
        let egui = String::from_str("egui");
        if lower == no_gui {
            Ok(GuiType::NoGui)
        } else if lower == egui {
            Ok(GuiType::Egui)
        } else {
            let mut message = String::from_str("Invalid gui type: ");
            message.append(value);
            Err(message)
        }
    }
}

impl std::str::FromStr for GuiType {
    type Err = String;

    fn from_str(value: &str) -> Result<Self, String> {
        GuiType::parse(value)
    }
}

/// Whether logged CPU steps show the data they read and write.
#[derive(Clone, Copy, Debug, PartialEq, Eq, Structural)]
pub enum CpuStepFormatting {
    NoData,
    Data,
}

impl CpuStepFormatting {
    /// Parses a step formatting, ignoring case: "nodata" or "data".
    pub fn parse(value: &str) -> (result: Result<CpuStepFormatting, String>)
        ensures
            result == if lowercased(value@) == "nodata"@ {
                Ok::<CpuStepFormatting, String>(CpuStepFormatting::NoData)
            } else if lowercased(value@) == "data"@ {
                Ok(CpuStepFormatting::Data)
            } else {
                Err(result->Err_0)
            },
            result matches Err(message) ==> message@ == "Invalid cpu step formatting: "@ + value@,
    {
        let lower = to_lowercase(value);
        let no_data = String::from_str("nodata");
        let data = String::from_str("data");
        if lower == no_data {
            Ok(CpuStepFormatting::NoData)
        } else if lower == data {
            Ok(CpuStepFormatting::Data)
        } else {
            let mut message = String::from_str("Invalid cpu step formatting: ");
            message.append(value);
            Err(message)
        }
    }
}

impl std::str::FromStr for CpuStepFormatting {
    type Err = String;

    fn from_str(value: &str) -> Result<Self, String> {
        CpuStepFormatting::parse(value)
    }
}

} // verus!
