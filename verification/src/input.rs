//! The beam description consumed by the layout engine.
//!
//! All lengths are whole numbers of one drawing unit (millimetres in
//! practice); rebar counts are plain counts. A config-loading collaborator
//! fills this struct and applies defaults before the engine runs.

use vstd::prelude::*;

verus! {

/// Outer dimensions of the rectangular cross-section.
#[derive(Debug, Clone, Copy, PartialEq, Eq, Structural)]
pub struct Dimension {
    pub beam_width: u32,
    pub beam_height: u32,
    pub cover_depth: u32,
}

/// Main (longitudinal) rebar: one diameter for every bar, the vertical gap
/// between stacked rows, and the bar count of each row. Row 1 of each group
/// is mandatory and holds at least two bars; rows 2 and 3 are overflow rows
/// and may be zero.
#[derive(Debug, Clone, Copy, PartialEq, Eq, Structural)]
pub struct MainRebar {
    pub diameter: u32,
    pub gap: u32,
    pub top_1: u32,
    pub top_2: u32,
    pub top_3: u32,
    pub bottom_1: u32,
    pub bottom_2: u32,
    pub bottom_3: u32,
}

/// Stirrup description; used only for the annotation text.
#[derive(Debug, Clone, Copy, PartialEq, Eq, Structural)]
pub struct Stirrup {
    pub num: u32,
    pub diameter: u32,
    pub pitch: u32,
}

/// Side (web) rebar: the number of intermediate rows between the top and
/// bottom main-rebar bands.
#[derive(Debug, Clone, Copy, PartialEq, Eq, Structural)]
pub struct WebRebar {
    pub diameter: u32,
    pub num_row: u32,
}

/// Names of the drawing layers the commands are tagged with.
#[derive(Debug)]
pub struct LayerName {
    pub concrete: String,
    pub rebar: String,
    pub text: String,
}

impl Default for LayerName {
    /// The layer names used when the configuration gives none.
    fn default() -> (r: LayerName)
        ensures
            r.concrete@ == "RC大梁"@,
            r.rebar@ == "RC鉄筋"@,
            r.text@ == "注釈"@,
    {
        LayerName {
            concrete: "RC大梁".to_owned(),
            rebar: "RC鉄筋".to_owned(),
            text: "注釈".to_owned(),
        }
    }
}

/// Presentation metadata for the annotation block.
#[derive(Debug, Clone, Copy, PartialEq, Eq, Structural)]
pub struct Layout {
    pub text_height: u32,
}

/// The complete beam description: everything the engine reads.
#[derive(Debug)]
pub struct RcBeamDrawing {
    pub beam_name: String,
    pub dimension: Dimension,
    pub main_rebar: MainRebar,
    pub stirrup: Stirrup,
    pub web_rebar: WebRebar,
    pub layer_name: LayerName,
    pub layout: Layout,
}

/// A precondition of the layout that the description violates. Every
/// variant names the field and the constraint, so a caller can report
/// exactly what to fix.
#[derive(Debug, Clone, Copy, PartialEq, Eq, Structural)]
pub enum ConfigValidationError {
    /// `dimension.beam_width` is zero.
    BeamWidthNotPositive,
    /// `dimension.beam_height` is zero.
    BeamHeightNotPositive,
    /// `dimension.cover_depth` is zero.
    CoverDepthNotPositive,
    /// `beam_width` does not exceed `2 * cover_depth + diameter`, so the
    /// first rebar row would not fit between the side faces.
    WidthTooSmall,
    /// `beam_height` does not exceed `2 * cover_depth + diameter`, so the
    /// top and bottom rows would not fit between the faces.
    HeightTooSmall,
    /// `main_rebar.bottom_1` is less than two.
    BottomRowTooSmall,
    /// `main_rebar.top_1` is less than two.
    TopRowTooSmall,
}

impl RcBeamDrawing {
    /// Every precondition of the layout engine at once: positive outer
    /// dimensions, enough room for the first rebar row in both directions,
    /// and at least two bars in each mandatory first row.
    pub open spec fn valid(self) -> bool {
        &&& self.dimension.beam_width > 0
        &&& self.dimension.beam_height > 0
        &&& self.dimension.cover_depth > 0
        &&& self.dimension.beam_width > 2 * self.dimension.cover_depth + self.main_rebar.diameter
        &&& self.dimension.beam_height > 2 * self.dimension.cover_depth + self.main_rebar.diameter
        &&& self.main_rebar.bottom_1 >= 2
        &&& self.main_rebar.top_1 >= 2
    }

    /// The exact outcome of validation: the first violated constraint, in
    /// the order the checks run.
    pub open spec fn validate_spec(self) -> Result<(), ConfigValidationError> {
        if self.dimension.beam_width == 0 {
            Err(ConfigValidationError::BeamWidthNotPositive)
        } else if self.dimension.beam_height == 0 {
            Err(ConfigValidationError::BeamHeightNotPositive)
        } else if self.dimension.cover_depth == 0 {
            Err(ConfigValidationError::CoverDepthNotPositive)
        } else if self.dimension.beam_width <= 2 * self.dimension.cover_depth + self.main_rebar.diameter {
            Err(ConfigValidationError::WidthTooSmall)
        } else if self.dimension.beam_height <= 2 * self.dimension.cover_depth + self.main_rebar.diameter {
            Err(ConfigValidationError::HeightTooSmall)
        } else if self.main_rebar.bottom_1 < 2 {
            Err(ConfigValidationError::BottomRowTooSmall)
        } else if self.main_rebar.top_1 < 2 {
            Err(ConfigValidationError::TopRowTooSmall)
        } else {
            Ok(())
        }
    }

    /// Checks every engine precondition, reporting the first violated one.
    pub fn validate(&self) -> (r: Result<(), ConfigValidationError>)
        ensures
            r == self.validate_spec(),
            r is Ok <==> self.valid(),
    {
        let w = self.dimension.beam_width;
        let h = self.dimension.beam_height;
        let c = self.dimension.cover_depth;
        let dia = self.main_rebar.diameter;
        if w == 0 {
            Err(ConfigValidationError::BeamWidthNotPositive)
        } else if h == 0 {
            Err(ConfigValidationError::BeamHeightNotPositive)
        } else if c == 0 {
            Err(ConfigValidationError::CoverDepthNotPositive)
        } else if w as u64 <= 2 * (c as u64) + (dia as u64) {
            Err(ConfigValidationError::WidthTooSmall)
        } else if h as u64 <= 2 * (c as u64) + (dia as u64) {
            Err(ConfigValidationError::HeightTooSmall)
        } else if self.main_rebar.bottom_1 < 2 {
            Err(ConfigValidationError::BottomRowTooSmall)
        } else if self.main_rebar.top_1 < 2 {
            Err(ConfigValidationError::TopRowTooSmall)
        } else {
            Ok(())
        }
    }
}

} // verus!
