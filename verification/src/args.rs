//! The choices that a caller makes: which pattern, on what canvas, and when
//! to draw.

use vstd::prelude::*;
use vstd::string::*;

verus! {

/// A pattern chosen by name, and the canvas to put it on.
#[derive(Clone, Copy, Debug)]
pub struct PresetArgs {
    /// The canvas's width. Without it the canvas is as wide as the pattern.
    pub width: Option<usize>,
    /// The canvas's height. Without it the canvas is as high as the pattern.
    pub height: Option<usize>,
    pub name: Presets,
    /// Whether the pattern goes to the middle of the canvas, not to its
    /// upper left corner.
    pub center: bool,
}

/// The named patterns.
#[derive(Clone, Copy, Debug, PartialEq, Eq, Structural)]
pub enum Presets {
    Acorn,
    Diehard,
    Gosper,
    PentaDecathlon,
    StillBlock,
}

/// Which generations are drawn.
#[derive(Clone, Copy, Debug, PartialEq, Eq, Structural)]
pub enum RenderMode {
    All,
    Final,
    /// No generation is drawn. Its name is `none`.
    Never,
}

/// Whether two strings hold the same text.
fn same_text(a: &str, b: &str) -> (same: bool)
    ensures
        same == (a@ == b@),
{
    a.to_owned() == b.to_owned()
}

/// `prefix`, then `word`, then a full stop.
fn complaint(prefix: &str, word: &str) -> (message: String)
    ensures
        message@ == prefix@ + word@ + "."@,
{
    String::from_str(prefix).concat(word).concat(".")
}

impl Presets {
    /// The name by which the pattern is chosen.
    pub open spec fn name(self) -> Seq<char> {
        match self {
            Presets::Acorn => "acorn"@,
            Presets::Diehard => "diehard"@,
            Presets::Gosper => "gosper"@,
            Presets::PentaDecathlon => "penta-decathlon"@,
            Presets::StillBlock => "still-block"@,
        }
    }

    /// The pattern's name, as text.
    pub fn to_string(&self) -> (text: String)
        ensures
            text@ == self.name(),
    {
        match self {
            Presets::Acorn => String::from_str("acorn"),
            Presets::Diehard => String::from_str("diehard"),
            Presets::Gosper => String::from_str("gosper"),
            Presets::PentaDecathlon => String::from_str("penta-decathlon"),
            Presets::StillBlock => String::from_str("still-block"),
        }
    }

    /// The pattern of the given name. Any other text is refused, with a
    /// message that repeats it.
    pub fn from_str(s: &str) -> (result: Result<Presets, String>)
        ensures
            match result {
                Ok(preset) => s@ == preset.name(),
                Err(message) => {
                    &&& forall|preset: Presets| s@ != #[trigger] preset.name()
                    &&& message@ == "Unknown preset: "@ + s@ + "."@
                },
            },
    {
        if same_text(s, "acorn") {
            Ok(Presets::Acorn)
        } else if same_text(s, "diehard") {
            Ok(Presets::Diehard)
        } else if same_text(s, "gosper") {
            Ok(Presets::Gosper)
        } else if same_text(s, "penta-decathlon") {
            Ok(Presets::PentaDecathlon)
        } else if same_text(s, "still-block") {
            Ok(Presets::StillBlock)
        } else {
            Err(complaint("Unknown preset: ", s))
        }
    }

    /// No two patterns share a name, so that a name tells the pattern.
    pub proof fn lemma_names_differ(first: Presets, second: Presets)
        requires
            first != second,
        ensures
            first.name() != second.name(),
    {
        reveal_strlit("acorn");
        reveal_strlit("diehard");
        reveal_strlit("gosper");
        reveal_strlit("penta-decathlon");
        reveal_strlit("still-block");
        assert(first.name().len() != second.name().len() || first.name()[0] != second.name()[0]);
    }
}

impl std::str::FromStr for Presets {
    type Err = String;

    /// As `Presets::from_str`, for `str::parse`.
    fn from_str(s: &str) -> (result: Result<Presets, String>)
        ensures
            match result {
                Ok(preset) => s@ == preset.name(),
                Err(message) => {
                    &&& forall|preset: Presets| s@ != #[trigger] preset.name()
                    &&& message@ == "Unknown preset: "@ + s@ + "."@
                },
            },
    {
        Presets::from_str(s)
    }
}

impl RenderMode {
    /// The name by which the mode is chosen.
    pub open spec fn name(self) -> Seq<char> {
        match self {
            RenderMode::All => "all"@,
            RenderMode::Final => "final"@,
            RenderMode::Never => "none"@,
        }
    }

    /// The mode's name, as text.
    pub fn to_string(&self) -> (text: String)
        ensures
            text@ == self.name(),
    {
        match self {
            RenderMode::All => String::from_str("all"),
            RenderMode::Final => String::from_str("final"),
            RenderMode::Never => String::from_str("none"),
        }
    }

    /// The mode of the given name. Any other text is refused, with a message
    /// that repeats it.
    pub fn from_str(s: &str) -> (result: Result<RenderMode, String>)
        ensures
            match result {
                Ok(mode) => s@ == mode.name(),
                Err(message) => {
                    &&& forall|mode: RenderMode| s@ != #[trigger] mode.name()
                    &&& message@ == "Unknown render mode: "@ + s@ + "."@
                },
            },
    {
        if same_text(s, "all") {
            Ok(RenderMode::All)
        } else if same_text(s, "final") {
            Ok(RenderMode::Final)
        } else if same_text(s, "none") {
            Ok(RenderMode::Never)
        } else {
            Err(complaint("Unknown render mode: ", s))
        }
    }

    /// No two modes share a name, so that a name tells the mode.
    pub proof fn lemma_names_differ(first: RenderMode, second: RenderMode)
        requires
            first != second,
        ensures
            first.name() != second.name(),
    {
        reveal_strlit("all");
        reveal_strlit("final");
        reveal_strlit("none");
        assert(first.name().len() != second.name().len());
    }
}

impl std::str::FromStr for RenderMode {
    type Err = String;

    /// As `RenderMode::from_str`, for `str::parse`.
    fn from_str(s: &str) -> (result: Result<RenderMode, String>)
        ensures
            match result {
                Ok(mode) => s@ == mode.name(),
                Err(message) => {
                    &&& forall|mode: RenderMode| s@ != #[trigger] mode.name()
                    &&& message@ == "Unknown render mode: "@ + s@ + "."@
                },
            },
    {
        RenderMode::from_str(s)
    }
}

} // verus!
