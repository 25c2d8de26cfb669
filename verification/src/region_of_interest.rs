//! Region resolver: turns a partially specified rectangle into pixel
//! coordinates.
//!
//! A region is described by four of six fields. Along each axis a near edge
//! (`left`, `top`), a far edge (`right`, `bottom`) and an extent (`width`,
//! `height`) are tied by `far = near + extent`, so two of the three fix the
//! third. Seven combinations of four fields are accepted.

use vstd::prelude::*;

verus! {

/// A region of interest as a job describes it: six optional fields, in pixels,
/// with the origin at the top-left corner of the frame.
#[derive(Clone, Copy, Debug, PartialEq, Eq, Structural)]
pub struct RegionOfInterest {
    pub top: Option<u32>,
    pub left: Option<u32>,
    pub right: Option<u32>,
    pub bottom: Option<u32>,
    pub width: Option<u32>,
    pub height: Option<u32>,
}

/// A resolved rectangle. A well-formed one is not empty.
#[derive(Clone, Copy, Debug, PartialEq, Eq, Structural)]
pub struct Coordinates {
    pub top: u32,
    pub left: u32,
    pub width: u32,
    pub height: u32,
}

/// Which of the six fields a description gives.
#[derive(Clone, Copy, Debug, PartialEq, Eq, Structural)]
pub struct FieldSet {
    pub top: bool,
    pub left: bool,
    pub right: bool,
    pub bottom: bool,
    pub width: bool,
    pub height: bool,
}

/// The axis along which a rectangle was found to be invalid.
#[derive(Clone, Copy, Debug, PartialEq, Eq, Structural)]
pub enum Axis {
    Horizontal,
    Vertical,
}

/// Why a region of interest could not be resolved.
#[derive(Clone, Copy, Debug, PartialEq, Eq, Structural)]
pub enum RegionError {
    /// The fields given are not one of the seven accepted combinations: the
    /// region is underspecified or inconsistent.
    Unresolvable { fields: FieldSet },
    /// The combination is accepted, but along `axis` the rectangle is empty,
    /// has its far edge before its near edge, or an extent that reaches past
    /// the origin.
    InvalidExtent { fields: FieldSet, axis: Axis },
}

impl Coordinates {
    /// A resolved rectangle has a positive width and a positive height.
    pub open spec fn wf(self) -> bool {
        self.width > 0 && self.height > 0
    }

    /// The column just past the right edge.
    pub open spec fn right(self) -> int {
        self.left + self.width
    }

    /// The row just past the bottom edge.
    pub open spec fn bottom(self) -> int {
        self.top + self.height
    }
}

/// 1 for a field that is given, 0 for one that is not.
pub open spec fn flag(present: bool) -> nat {
    if present {
        1
    } else {
        0
    }
}

impl FieldSet {
    /// How many fields are given.
    pub open spec fn count(self) -> nat {
        flag(self.top) + flag(self.left) + flag(self.right) + flag(self.bottom) + flag(self.width)
            + flag(self.height)
    }

    /// Exactly these fields are given.
    pub open spec fn is(
        self,
        top: bool,
        left: bool,
        right: bool,
        bottom: bool,
        width: bool,
        height: bool,
    ) -> bool {
        self.top == top && self.left == left && self.right == right && self.bottom == bottom
            && self.width == width && self.height == height
    }

    /// The seven accepted combinations.
    pub open spec fn resolvable(self) -> bool {
        ||| self.is(true, true, true, true, false, false)
        ||| self.is(true, true, false, false, true, true)
        ||| self.is(true, true, false, true, true, false)
        ||| self.is(true, true, true, false, false, true)
        ||| self.is(false, true, false, true, true, true)
        ||| self.is(true, false, true, false, true, true)
        ||| self.is(false, false, true, true, true, true)
    }

    /// Tells whether the fields given are an accepted combination.
    pub fn is_resolvable(&self) -> (r: bool)
        ensures
            r == self.resolvable(),
    {
        let horizontal_edges = self.left && self.right && !self.width;
        let horizontal_origin = self.left && !self.right && self.width;
        let horizontal_far = !self.left && self.right && self.width;
        let vertical_edges = self.top && self.bottom && !self.height;
        let vertical_origin = self.top && !self.bottom && self.height;
        let vertical_far = !self.top && self.bottom && self.height;
        (horizontal_edges && (vertical_edges || vertical_origin))
            || (horizontal_origin && (vertical_edges || vertical_origin || vertical_far))
            || (horizontal_far && (vertical_origin || vertical_far))
    }
}

/// The near edge along one axis, from whichever two of the three fields are
/// given. Negative where the extent reaches past the origin.
pub open spec fn axis_origin(near: Option<u32>, far: Option<u32>, extent: Option<u32>) -> int {
    match near {
        Some(n) => n as int,
        None => far.unwrap() - extent.unwrap(),
    }
}

/// The extent along one axis, from whichever two of the three fields are
/// given. Negative where the far edge lies before the near edge.
pub open spec fn axis_extent(near: Option<u32>, far: Option<u32>, extent: Option<u32>) -> int {
    match extent {
        Some(e) => e as int,
        None => far.unwrap() - near.unwrap(),
    }
}

/// Exactly two of the three fields of one axis are given.
pub open spec fn axis_determined(near: Option<u32>, far: Option<u32>, extent: Option<u32>) -> bool {
    flag(near is Some) + flag(far is Some) + flag(extent is Some) == 2
}

/// The axis has its near edge at or after the origin and a positive extent.
pub open spec fn axis_valid(near: Option<u32>, far: Option<u32>, extent: Option<u32>) -> bool {
    axis_origin(near, far, extent) >= 0 && axis_extent(near, far, extent) > 0
}

/// One field's name in a listing: nothing where the field is absent, the name
/// alone where it comes first, else a comma, a space and the name.
pub open spec fn listed(present: bool, name: Seq<char>, preceded: bool) -> Seq<char> {
    if !present {
        Seq::empty()
    } else if preceded {
        ", "@ + name
    } else {
        name
    }
}

/// Appends one field's name to a listing.
fn push_listed(text: &mut String, present: bool, name: &str, preceded: bool)
    ensures
        final(text)@ == old(text)@ + listed(present, name@, preceded),
{
    if present {
        if preceded {
            text.append(", ");
        }
        text.append(name);
    }
}

impl FieldSet {
    /// `prefix` followed by the names of the fields given, in the order top,
    /// left, right, bottom, width, height, separated by a comma and a space.
    pub open spec fn listing_after(self, prefix: Seq<char>) -> Seq<char> {
        let text = prefix + listed(self.top, "top"@, false);
        let text = text + listed(self.left, "left"@, self.top);
        let text = text + listed(self.right, "right"@, self.top || self.left);
        let text = text + listed(self.bottom, "bottom"@, self.top || self.left || self.right);
        let text = text + listed(
            self.width,
            "width"@,
            self.top || self.left || self.right || self.bottom,
        );
        text + listed(
            self.height,
            "height"@,
            self.top || self.left || self.right || self.bottom || self.width,
        )
    }

    /// Appends the names of the fields given to `text`.
    pub fn append_listing(&self, text: &mut String)
        ensures
            final(text)@ == self.listing_after(old(text)@),
    {
        push_listed(text, self.top, "top", false);
        push_listed(text, self.left, "left", self.top);
        push_listed(text, self.right, "right", self.top || self.left);
        push_listed(text, self.bottom, "bottom", self.top || self.left || self.right);
        push_listed(text, self.width, "width", self.top || self.left || self.right || self.bottom);
        push_listed(
            text,
            self.height,
            "height",
            self.top || self.left || self.right || self.bottom || self.width,
        );
    }
}

impl RegionError {
    /// The fields that the rejected description gave.
    pub open spec fn spec_fields(self) -> FieldSet {
        match self {
            RegionError::Unresolvable { fields } => fields,
            RegionError::InvalidExtent { fields, .. } => fields,
        }
    }

    /// How the message starts, before the names of the fields.
    pub open spec fn heading(self) -> Seq<char> {
        match self {
            RegionError::Unresolvable { .. } => {
                "Cannot compute coordinates from such a region of interest: "@
            },
            RegionError::InvalidExtent { axis: Axis::Horizontal, .. } => {
                "Negative or empty horizontal extent in region of interest: "@
            },
            RegionError::InvalidExtent { axis: Axis::Vertical, .. } => {
                "Negative or empty vertical extent in region of interest: "@
            },
        }
    }

    /// The text of the message: what went wrong, then the names of the
    /// fields that were given.
    pub open spec fn spec_message(self) -> Seq<char> {
        self.spec_fields().listing_after(self.heading())
    }

    /// The fields that the rejected description gave.
    pub fn fields(&self) -> (r: FieldSet)
        ensures
            r == self.spec_fields(),
    {
        match self {
            RegionError::Unresolvable { fields } => *fields,
            RegionError::InvalidExtent { fields, .. } => *fields,
        }
    }

    /// A message for the job's error report: what went wrong, then the names
    /// of the fields that were given.
    pub fn message(&self) -> (text: String)
        ensures
            text@ == self.spec_message(),
    {
        let mut text = match self {
            RegionError::Unresolvable { .. } => {
                String::from_str("Cannot compute coordinates from such a region of interest: ")
            },
            RegionError::InvalidExtent { axis: Axis::Horizontal, .. } => {
                String::from_str("Negative or empty horizontal extent in region of interest: ")
            },
            RegionError::InvalidExtent { axis: Axis::Vertical, .. } => {
                String::from_str("Negative or empty vertical extent in region of interest: ")
            },
        };
        self.fields().append_listing(&mut text);
        text
    }
}

/// Near edge and extent along one axis, or `None` where they are invalid.
fn resolve_axis(near: Option<u32>, far: Option<u32>, extent: Option<u32>) -> (r: Option<(u32, u32)>)
    requires
        axis_determined(near, far, extent),
    ensures
        r is Some <==> axis_valid(near, far, extent),
        r matches Some((origin, length)) ==> origin == axis_origin(near, far, extent) && length
            == axis_extent(near, far, extent),
{
    match (near, far, extent) {
        (Some(n), Some(f), None) => {
            if f > n {
                Some((n, f - n))
            } else {
                None
            }
        },
        (Some(n), None, Some(e)) => {
            if e > 0 {
                Some((n, e))
            } else {
                None
            }
        },
        (None, Some(f), Some(e)) => {
            if e > 0 && f >= e {
                Some((f - e, e))
            } else {
                None
            }
        },
        _ => None,
    }
}

impl RegionOfInterest {
    /// Which fields are given.
    pub open spec fn field_set(self) -> FieldSet {
        FieldSet {
            top: self.top is Some,
            left: self.left is Some,
            right: self.right is Some,
            bottom: self.bottom is Some,
            width: self.width is Some,
            height: self.height is Some,
        }
    }

    /// Every field that is given agrees with `rect`.
    pub open spec fn describes(self, rect: Coordinates) -> bool {
        &&& self.top matches Some(top) ==> top == rect.top
        &&& self.left matches Some(left) ==> left == rect.left
        &&& self.right matches Some(right) ==> right == rect.right()
        &&& self.bottom matches Some(bottom) ==> bottom == rect.bottom()
        &&& self.width matches Some(width) ==> width == rect.width
        &&& self.height matches Some(height) ==> height == rect.height
    }

    /// What the description resolves to. An unaccepted combination is
    /// reported first, then an invalid horizontal axis, then an invalid
    /// vertical one.
    pub open spec fn resolved(self) -> Result<Coordinates, RegionError> {
        let fields = self.field_set();
        if !fields.resolvable() {
            Err(RegionError::Unresolvable { fields })
        } else if !axis_valid(self.left, self.right, self.width) {
            Err(RegionError::InvalidExtent { fields, axis: Axis::Horizontal })
        } else if !axis_valid(self.top, self.bottom, self.height) {
            Err(RegionError::InvalidExtent { fields, axis: Axis::Vertical })
        } else {
            Ok(
                Coordinates {
                    top: axis_origin(self.top, self.bottom, self.height) as u32,
                    left: axis_origin(self.left, self.right, self.width) as u32,
                    width: axis_extent(self.left, self.right, self.width) as u32,
                    height: axis_extent(self.top, self.bottom, self.height) as u32,
                },
            )
        }
    }

    /// Tells which fields are given.
    pub fn present_fields(&self) -> (r: FieldSet)
        ensures
            r == self.field_set(),
    {
        FieldSet {
            top: self.top.is_some(),
            left: self.left.is_some(),
            right: self.right.is_some(),
            bottom: self.bottom.is_some(),
            width: self.width.is_some(),
            height: self.height.is_some(),
        }
    }

    /// Resolves the description into a rectangle. Nothing is clamped to a
    /// frame: whether the rectangle fits is checked when the transform chain
    /// is built.
    pub fn resolve(&self) -> (r: Result<Coordinates, RegionError>)
        ensures
            r == self.resolved(),
            r matches Ok(rect) ==> rect.wf() && self.describes(rect),
    {
        let fields = self.present_fields();
        if !fields.is_resolvable() {
            return Err(RegionError::Unresolvable { fields });
        }
        let (left, width) = match resolve_axis(self.left, self.right, self.width) {
            Some(axis) => axis,
            None => {
                return Err(RegionError::InvalidExtent { fields, axis: Axis::Horizontal });
            },
        };
        let (top, height) = match resolve_axis(self.top, self.bottom, self.height) {
            Some(axis) => axis,
            None => {
                return Err(RegionError::InvalidExtent { fields, axis: Axis::Vertical });
            },
        };
        Ok(Coordinates { top, left, width, height })
    }

    /// Resolves the description into a rectangle, as `resolve` does, and
    /// reports a failure by its message.
    pub fn get_coordinates(&self) -> (r: Result<Coordinates, String>)
        ensures
            match self.resolved() {
                Ok(rect) => r == Ok::<Coordinates, String>(rect),
                Err(error) => r matches Err(text) && text@ == error.spec_message(),
            },
            r matches Ok(rect) ==> rect.wf() && self.describes(rect),
    {
        match self.resolve() {
            Ok(rect) => Ok(rect),
            Err(error) => Err(error.message()),
        }
    }
}

/// Descriptions that give an accepted combination of fields and agree with
/// one non-empty rectangle all resolve to that rectangle, whichever of the
/// seven combinations each of them uses.
pub proof fn lemma_equivalent_descriptions_resolve_alike(
    a: RegionOfInterest,
    b: RegionOfInterest,
    rect: Coordinates,
)
    requires
        rect.wf(),
        a.field_set().resolvable(),
        b.field_set().resolvable(),
        a.describes(rect),
        b.describes(rect),
    ensures
        a.resolved() == Ok::<Coordinates, RegionError>(rect),
        b.resolved() == a.resolved(),
{
}

/// A description that gives fewer or more than four fields is rejected as
/// unresolvable.
pub proof fn lemma_wrong_field_count_is_rejected(roi: RegionOfInterest)
    requires
        roi.field_set().count() != 4,
    ensures
        roi.resolved() == Err::<Coordinates, RegionError>(
            RegionError::Unresolvable { fields: roi.field_set() },
        ),
{
}

/// A description that leaves an axis with fewer or more than two of its
/// three fields is rejected as unresolvable, and so are the two combinations
/// of four fields that pair both horizontal edges with the bottom edge and
/// the height, or both vertical edges with the right edge and the width.
pub proof fn lemma_unlisted_combination_is_rejected(roi: RegionOfInterest)
    requires
        !axis_determined(roi.left, roi.right, roi.width) || !axis_determined(
            roi.top,
            roi.bottom,
            roi.height,
        ) || roi.field_set().is(false, true, true, true, false, true) || roi.field_set().is(
            true,
            false,
            true,
            true,
            true,
            false,
        ),
    ensures
        roi.resolved() == Err::<Coordinates, RegionError>(
            RegionError::Unresolvable { fields: roi.field_set() },
        ),
{
}

/// An accepted combination leaves each axis with exactly two of its three
/// fields, so the third is determined.
pub proof fn lemma_accepted_combination_determines_both_axes(roi: RegionOfInterest)
    requires
        roi.field_set().resolvable(),
    ensures
        roi.field_set().count() == 4,
        axis_determined(roi.left, roi.right, roi.width),
        axis_determined(roi.top, roi.bottom, roi.height),
{
}

/// A right edge before the left edge, or a bottom edge before the top edge,
/// is never resolved: the subtraction is refused, not wrapped.
pub proof fn lemma_inverted_edges_are_rejected(roi: RegionOfInterest)
    requires
        (roi.left matches Some(left) && roi.right matches Some(right) && right < left) || (
        roi.top matches Some(top) && roi.bottom matches Some(bottom) && bottom < top),
    ensures
        roi.resolved() is Err,
        roi.field_set().resolvable() ==> roi.resolved() matches Err(
            RegionError::InvalidExtent { .. },
        ),
{
}

/// Resolution depends on the six fields alone: two descriptions with the
/// same fields resolve to the same rectangle, or fail with the same error.
pub proof fn lemma_resolution_is_a_function(a: RegionOfInterest, b: RegionOfInterest)
    requires
        a.top == b.top,
        a.left == b.left,
        a.right == b.right,
        a.bottom == b.bottom,
        a.width == b.width,
        a.height == b.height,
    ensures
        a.resolved() == b.resolved(),
{
}

} // verus!
