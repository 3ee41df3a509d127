//! The encoder: from the elements of a canvas to SVG markup.
//!
//! An element is drawn where its record has what every shape needs: a
//! textual `type`, `strokeColor` and `backgroundColor`, and a numeric `x`,
//! `y`, `width`, `height` and `strokeWidth`. Any other element is left out.
//!
//! The library holds no floating-point number. Every quantity that the markup
//! shows is described here as a [`Scalar`] over the numbers of an element's
//! record; the caller evaluates each one in binary64 arithmetic, renders it in
//! decimal and hands the texts back as [`Measures<String>`].

use vstd::prelude::*;
use vstd::string::StringExecFns;

use crate::json::{views, Json, JsonView, Number};
use crate::text::{
    decimal, escape_markup, escaped, joined, push_decimal, push_joined, same_text, text_views,
};

verus! {

/// A quantity of an element's geometry, over the numbers of its record.
#[derive(Clone, Copy, Debug, PartialEq, Eq, Structural)]
pub enum Scalar {
    /// The number itself.
    Plain(Number),
    /// Half of the number.
    Half(Number),
    /// The first number plus the second.
    Sum(Number, Number),
    /// The first number plus half of the second.
    SumHalf(Number, Number),
}

/// The quantities that the markup of one element may show: as [`Scalar`]s
/// when the library asks for them, as decimal texts when it draws.
#[derive(Clone, Debug, PartialEq, Eq)]
pub struct Measures<T> {
    pub x: T,
    pub y: T,
    pub width: T,
    pub height: T,
    pub stroke_width: T,
    pub font_size: T,
    pub center_x: T,
    pub center_y: T,
    pub radius_x: T,
    pub radius_y: T,
    pub end_x: T,
    pub end_y: T,
}

/// The number that a member is; nothing where the member is missing or is no
/// number.
pub open spec fn numeric(field: Option<JsonView>) -> Option<Number> {
    match field {
        Some(JsonView::Number(n)) => Some(n),
        _ => None,
    }
}

/// The text that a member is; nothing where the member is missing or is no
/// text.
pub open spec fn textual(field: Option<JsonView>) -> Option<Seq<char>> {
    match field {
        Some(JsonView::Text(s)) => Some(s),
        _ => None,
    }
}

/// The number that a member is, or the fallback where the member is missing
/// or is no number.
pub open spec fn number_or(field: Option<JsonView>, fallback: Number) -> Number {
    match numeric(field) {
        Some(n) => n,
        None => fallback,
    }
}

/// The text that a member is, or the fallback where the member is missing or
/// is no text.
pub open spec fn text_or(field: Option<JsonView>, fallback: Seq<char>) -> Seq<char> {
    match textual(field) {
        Some(s) => s,
        None => fallback,
    }
}

/// The integer that a member is, or the fallback where the member is missing
/// or is no integer of 64 bits.
pub open spec fn integer_or(field: Option<JsonView>, fallback: i64) -> i64 {
    match numeric(field) {
        Some(n) => match n.integer() {
            Some(i) => i,
            None => fallback,
        },
        None => fallback,
    }
}

fn number_member(element: &Json, key: &str) -> (number: Option<Number>)
    ensures
        number == numeric(element@.get(key@)),
{
    match element.get(key) {
        Some(value) => value.as_number(),
        None => None,
    }
}

fn text_member<'a>(element: &'a Json, key: &str) -> (text: Option<&'a str>)
    ensures
        match text {
            Some(s) => textual(element@.get(key@)) == Some(s@),
            None => textual(element@.get(key@)) is None,
        },
{
    match element.get(key) {
        Some(value) => value.as_str(),
        None => None,
    }
}

fn number_field(element: &Json, key: &str, fallback: Number) -> (number: Number)
    ensures
        number == number_or(element@.get(key@), fallback),
{
    match number_member(element, key) {
        Some(n) => n,
        None => fallback,
    }
}

fn text_field<'a>(element: &'a Json, key: &str, fallback: &'a str) -> (text: &'a str)
    ensures
        text@ == text_or(element@.get(key@), fallback@),
{
    match text_member(element, key) {
        Some(s) => s,
        None => fallback,
    }
}

fn integer_field(element: &Json, key: &str, fallback: i64) -> (integer: i64)
    ensures
        integer == integer_or(element@.get(key@), fallback),
{
    match number_member(element, key) {
        Some(n) => match n.as_i64() {
            Some(i) => i,
            None => fallback,
        },
        None => fallback,
    }
}

/// Whether an element can be drawn: its `type`, `strokeColor` and
/// `backgroundColor` are texts, and its `x`, `y`, `width`, `height` and
/// `strokeWidth` are numbers.
pub open spec fn drawable(element: JsonView) -> bool {
    &&& element.get("type"@) matches Some(JsonView::Text(_))
    &&& element.get("x"@) matches Some(JsonView::Number(_))
    &&& element.get("y"@) matches Some(JsonView::Number(_))
    &&& element.get("width"@) matches Some(JsonView::Number(_))
    &&& element.get("height"@) matches Some(JsonView::Number(_))
    &&& element.get("strokeColor"@) matches Some(JsonView::Text(_))
    &&& element.get("backgroundColor"@) matches Some(JsonView::Text(_))
    &&& element.get("strokeWidth"@) matches Some(JsonView::Number(_))
}

/// What every shape needs, read from the record of an element that can be
/// drawn.
pub struct Shape {
    pub kind: Seq<char>,
    pub x: Number,
    pub y: Number,
    pub width: Number,
    pub height: Number,
    pub stroke: Seq<char>,
    pub fill: Seq<char>,
    pub stroke_width: Number,
}

/// What every shape needs, where the element can be drawn; nothing for any
/// other element.
pub open spec fn shape_of(element: JsonView) -> Option<Shape> {
    if drawable(element) {
        Some(
            Shape {
                kind: textual(element.get("type"@))->0,
                x: numeric(element.get("x"@))->0,
                y: numeric(element.get("y"@))->0,
                width: numeric(element.get("width"@))->0,
                height: numeric(element.get("height"@))->0,
                stroke: textual(element.get("strokeColor"@))->0,
                fill: textual(element.get("backgroundColor"@))->0,
                stroke_width: numeric(element.get("strokeWidth"@))->0,
            },
        )
    } else {
        None
    }
}

struct ShapeRef<'a> {
    kind: &'a str,
    x: Number,
    y: Number,
    width: Number,
    height: Number,
    stroke: &'a str,
    fill: &'a str,
    stroke_width: Number,
}

impl<'a> ShapeRef<'a> {
    spec fn view(&self) -> Shape {
        Shape {
            kind: self.kind@,
            x: self.x,
            y: self.y,
            width: self.width,
            height: self.height,
            stroke: self.stroke@,
            fill: self.fill@,
            stroke_width: self.stroke_width,
        }
    }
}

fn read_shape<'a>(element: &'a Json) -> (shape: Option<ShapeRef<'a>>)
    ensures
        match shape {
            Some(found) => shape_of(element@) == Some(found.view()),
            None => shape_of(element@) is None,
        },
{
    let kind = text_member(element, "type")?;
    let x = number_member(element, "x")?;
    let y = number_member(element, "y")?;
    let width = number_member(element, "width")?;
    let height = number_member(element, "height")?;
    let stroke = text_member(element, "strokeColor")?;
    let fill = text_member(element, "backgroundColor")?;
    let stroke_width = number_member(element, "strokeWidth")?;
    Some(ShapeRef { kind, x, y, width, height, stroke, fill, stroke_width })
}

/// The quantities of an element that can be drawn: its position and extent,
/// the width of its stroke, the size of its font (16 where `fontSize` is
/// missing or is no number), the centre and radii of the ellipse inscribed in
/// its extent, and the corner opposite its position. Nothing for an element
/// that cannot be drawn.
pub open spec fn scalars(element: JsonView) -> Option<Measures<Scalar>> {
    match shape_of(element) {
        Some(shape) => Some(
            Measures {
                x: Scalar::Plain(shape.x),
                y: Scalar::Plain(shape.y),
                width: Scalar::Plain(shape.width),
                height: Scalar::Plain(shape.height),
                stroke_width: Scalar::Plain(shape.stroke_width),
                font_size: Scalar::Plain(number_or(element.get("fontSize"@), Number::PosInt(16))),
                center_x: Scalar::SumHalf(shape.x, shape.width),
                center_y: Scalar::SumHalf(shape.y, shape.height),
                radius_x: Scalar::Half(shape.width),
                radius_y: Scalar::Half(shape.height),
                end_x: Scalar::Sum(shape.x, shape.width),
                end_y: Scalar::Sum(shape.y, shape.height),
            },
        ),
        None => None,
    }
}

/// The quantities of one element, for the caller to evaluate; nothing where
/// the element cannot be drawn.
pub fn element_scalars(element: &Json) -> (measures: Option<Measures<Scalar>>)
    ensures
        measures == scalars(element@),
{
    match read_shape(element) {
        Some(shape) => Some(
            Measures {
                x: Scalar::Plain(shape.x),
                y: Scalar::Plain(shape.y),
                width: Scalar::Plain(shape.width),
                height: Scalar::Plain(shape.height),
                stroke_width: Scalar::Plain(shape.stroke_width),
                font_size: Scalar::Plain(number_field(element, "fontSize", Number::PosInt(16))),
                center_x: Scalar::SumHalf(shape.x, shape.width),
                center_y: Scalar::SumHalf(shape.y, shape.height),
                radius_x: Scalar::Half(shape.width),
                radius_y: Scalar::Half(shape.height),
                end_x: Scalar::Sum(shape.x, shape.width),
                end_y: Scalar::Sum(shape.y, shape.height),
            },
        ),
        None => None,
    }
}

/// For every item of an element list, in order, its quantities, or nothing
/// where the item cannot be drawn.
pub fn canvas_scalars(elements: &Json) -> (all: Vec<Option<Measures<Scalar>>>)
    ensures
        all@.len() == elements@.items().len(),
        forall|i: int| 0 <= i < all@.len() ==> all@[i] == scalars(#[trigger] elements@.items()[i]),
{
    let mut all: Vec<Option<Measures<Scalar>>> = Vec::new();
    match elements.as_array() {
        Some(items) => {
            let mut i: usize = 0;
            while i < items.len()
                invariant
                    i <= items.len(),
                    all@.len() == i,
                    elements@.items() == views(items@),
                    forall|k: int|
                        0 <= k < i ==> all@[k] == scalars(#[trigger] elements@.items()[k]),
                decreases items.len() - i,
            {
                all.push(element_scalars(&items[i]));
                i += 1;
            }
        },
        None => {},
    }
    all
}

/// One attribute of a tag: a space, the name, and the value in double quotes.
pub open spec fn attribute(name: Seq<char>, value: Seq<char>) -> Seq<char> {
    " "@ + name + "=\""@ + value + "\""@
}

fn push_attribute(out: &mut String, name: &str, value: &str)
    ensures
        final(out)@ == old(out)@ + attribute(name@, value@),
{
    let mut piece = String::from_str(" ");
    piece.append(name);
    piece.append("=\"");
    piece.append(value);
    piece.append("\"");
    out.append(piece.as_str());
}

/// The font that a family code names.
pub open spec fn family_name(code: i64) -> Seq<char> {
    if code == 1 {
        "Virgil"@
    } else if code == 2 {
        "Helvetica"@
    } else if code == 3 {
        "Cascadia"@
    } else {
        "Virgil"@
    }
}

/// The anchor that an alignment asks for.
pub open spec fn anchor(align: Seq<char>) -> Seq<char> {
    if align == "center"@ {
        "middle"@
    } else if align == "right"@ {
        "end"@
    } else {
        "start"@
    }
}

/// An axis-aligned rectangle.
pub open spec fn rectangle_markup(m: Measures<String>, fill: Seq<char>, stroke: Seq<char>) -> Seq<
    char,
> {
    "<rect"@ + attribute("x"@, m.x@) + attribute("y"@, m.y@) + attribute("width"@, m.width@)
        + attribute("height"@, m.height@) + attribute("fill"@, fill) + attribute("stroke"@, stroke)
        + attribute("stroke-width"@, m.stroke_width@) + "/>"@
}

/// The ellipse inscribed in the element's extent.
pub open spec fn ellipse_markup(m: Measures<String>, fill: Seq<char>, stroke: Seq<char>) -> Seq<
    char,
> {
    "<ellipse"@ + attribute("cx"@, m.center_x@) + attribute("cy"@, m.center_y@) + attribute(
        "rx"@,
        m.radius_x@,
    ) + attribute("ry"@, m.radius_y@) + attribute("fill"@, fill) + attribute("stroke"@, stroke)
        + attribute("stroke-width"@, m.stroke_width@) + "/>"@
}

/// A straight segment from the element's position to the opposite corner.
pub open spec fn line_markup(m: Measures<String>, stroke: Seq<char>) -> Seq<char> {
    "<line"@ + attribute("x1"@, m.x@) + attribute("y1"@, m.y@) + attribute("x2"@, m.end_x@)
        + attribute("y2"@, m.end_y@) + attribute("stroke"@, stroke) + attribute(
        "stroke-width"@,
        m.stroke_width@,
    ) + "/>"@
}

/// Text at the element's position, with its content escaped.
pub open spec fn text_markup(
    m: Measures<String>,
    family: Seq<char>,
    anchor: Seq<char>,
    fill: Seq<char>,
    content: Seq<char>,
) -> Seq<char> {
    "<text"@ + attribute("x"@, m.x@) + attribute("y"@, m.y@) + attribute(
        "font-size"@,
        m.font_size@,
    ) + attribute("font-family"@, family) + attribute("text-anchor"@, anchor) + attribute(
        "fill"@,
        fill,
    ) + attribute("dominant-baseline"@, "hanging"@) + ">"@ + escaped(content) + "</text>"@
}

/// The dashed, unfilled rectangle that stands for an element of unknown type.
pub open spec fn placeholder_markup(m: Measures<String>, stroke: Seq<char>) -> Seq<char> {
    "<rect"@ + attribute("x"@, m.x@) + attribute("y"@, m.y@) + attribute("width"@, m.width@)
        + attribute("height"@, m.height@) + attribute("fill"@, "none"@) + attribute(
        "stroke"@,
        stroke,
    ) + attribute("stroke-width"@, m.stroke_width@) + attribute("stroke-dasharray"@, "5,5"@)
        + "/>"@
}

/// The markup of an element that can be drawn.
pub open spec fn shape_markup(shape: Shape, element: JsonView, m: Measures<String>) -> Seq<char> {
    if shape.kind == "rectangle"@ {
        rectangle_markup(m, shape.fill, shape.stroke)
    } else if shape.kind == "ellipse"@ {
        ellipse_markup(m, shape.fill, shape.stroke)
    } else if shape.kind == "arrow"@ || shape.kind == "line"@ {
        line_markup(m, shape.stroke)
    } else if shape.kind == "text"@ {
        text_markup(
            m,
            family_name(integer_or(element.get("fontFamily"@), 1)),
            anchor(text_or(element.get("textAlign"@), "left"@)),
            shape.stroke,
            text_or(element.get("text"@), "[text]"@),
        )
    } else {
        placeholder_markup(m, shape.stroke)
    }
}

/// The markup of one element, or nothing where it cannot be drawn.
pub open spec fn fragment(element: JsonView, m: Measures<String>) -> Option<Seq<char>> {
    match shape_of(element) {
        Some(shape) => Some(shape_markup(shape, element, m)),
        None => None,
    }
}

/// The markup of one element, given the decimal texts of its quantities.
/// There is markup exactly where the element can be drawn: where its `type`,
/// `strokeColor` and `backgroundColor` are texts and its `x`, `y`, `width`,
/// `height` and `strokeWidth` are numbers.
pub fn convert_element_to_svg(element: &Json, measures: &Measures<String>) -> (markup: Option<
    String,
>)
    ensures
        markup is Some <==> drawable(element@),
        match markup {
            Some(text) => fragment(element@, *measures) == Some(text@),
            None => fragment(element@, *measures) is None,
        },
{
    let shape = match read_shape(element) {
        Some(shape) => shape,
        None => {
            return None;
        },
    };
    let kind = shape.kind;
    let stroke = shape.stroke;
    let fill = shape.fill;
    let m = measures;
    let mut out: String;
    if same_text(kind, "rectangle") {
        out = String::from_str("<rect");
        push_attribute(&mut out, "x", m.x.as_str());
        push_attribute(&mut out, "y", m.y.as_str());
        push_attribute(&mut out, "width", m.width.as_str());
        push_attribute(&mut out, "height", m.height.as_str());
        push_attribute(&mut out, "fill", fill);
        push_attribute(&mut out, "stroke", stroke);
        push_attribute(&mut out, "stroke-width", m.stroke_width.as_str());
        out.append("/>");
    } else if same_text(kind, "ellipse") {
        out = String::from_str("<ellipse");
        push_attribute(&mut out, "cx", m.center_x.as_str());
        push_attribute(&mut out, "cy", m.center_y.as_str());
        push_attribute(&mut out, "rx", m.radius_x.as_str());
        push_attribute(&mut out, "ry", m.radius_y.as_str());
        push_attribute(&mut out, "fill", fill);
        push_attribute(&mut out, "stroke", stroke);
        push_attribute(&mut out, "stroke-width", m.stroke_width.as_str());
        out.append("/>");
    } else if same_text(kind, "arrow") || same_text(kind, "line") {
        out = String::from_str("<line");
        push_attribute(&mut out, "x1", m.x.as_str());
        push_attribute(&mut out, "y1", m.y.as_str());
        push_attribute(&mut out, "x2", m.end_x.as_str());
        push_attribute(&mut out, "y2", m.end_y.as_str());
        push_attribute(&mut out, "stroke", stroke);
        push_attribute(&mut out, "stroke-width", m.stroke_width.as_str());
        out.append("/>");
    } else if same_text(kind, "text") {
        let content = text_field(element, "text", "[text]");
        let align = text_field(element, "textAlign", "left");
        let code = integer_field(element, "fontFamily", 1);
        let family = if code == 1 {
            "Virgil"
        } else if code == 2 {
            "Helvetica"
        } else if code == 3 {
            "Cascadia"
        } else {
            "Virgil"
        };
        let anchor = if same_text(align, "center") {
            "middle"
        } else if same_text(align, "right") {
            "end"
        } else {
            "start"
        };
        let escaped_content = escape_markup(content);
        out = String::from_str("<text");
        push_attribute(&mut out, "x", m.x.as_str());
        push_attribute(&mut out, "y", m.y.as_str());
        push_attribute(&mut out, "font-size", m.font_size.as_str());
        push_attribute(&mut out, "font-family", family);
        push_attribute(&mut out, "text-anchor", anchor);
        push_attribute(&mut out, "fill", stroke);
        push_attribute(&mut out, "dominant-baseline", "hanging");
        out.append(">");
        out.append(escaped_content.as_str());
        out.append("</text>");
    } else {
        out = String::from_str("<rect");
        push_attribute(&mut out, "x", m.x.as_str());
        push_attribute(&mut out, "y", m.y.as_str());
        push_attribute(&mut out, "width", m.width.as_str());
        push_attribute(&mut out, "height", m.height.as_str());
        push_attribute(&mut out, "fill", "none");
        push_attribute(&mut out, "stroke", stroke);
        push_attribute(&mut out, "stroke-width", m.stroke_width.as_str());
        push_attribute(&mut out, "stroke-dasharray", "5,5");
        out.append("/>");
    }
    Some(out)
}

/// The markup of the item at a position of the list, drawn with the measures
/// at the same position; nothing where the item cannot be drawn or has no
/// measures.
pub open spec fn fragment_at(
    items: Seq<JsonView>,
    measures: Seq<Option<Measures<String>>>,
    at: int,
) -> Option<Seq<char>> {
    if 0 <= at < items.len() && at < measures.len() {
        match measures[at] {
            Some(m) => fragment(items[at], m),
            None => None,
        }
    } else {
        None
    }
}

/// The markup of those of the first `count` items that are drawn, in the
/// order of the items.
pub open spec fn fragments(
    items: Seq<JsonView>,
    measures: Seq<Option<Measures<String>>>,
    count: nat,
) -> Seq<Seq<char>>
    decreases count,
{
    if count == 0 {
        Seq::empty()
    } else {
        let earlier = fragments(items, measures, (count - 1) as nat);
        match fragment_at(items, measures, count - 1) {
            Some(markup) => earlier.push(markup),
            None => earlier,
        }
    }
}

/// What opens an SVG document of the given size: the declaration, the root
/// tag and the white background.
pub open spec fn preamble(width: u32, height: u32) -> Seq<char> {
    "<?xml version=\"1.0\" encoding=\"UTF-8\"?>\n<svg"@ + attribute(
        "width"@,
        decimal(width as nat),
    ) + attribute("height"@, decimal(height as nat)) + attribute(
        "viewBox"@,
        "0 0 "@ + decimal(width as nat) + " "@ + decimal(height as nat),
    ) + attribute("xmlns"@, "http://www.w3.org/2000/svg"@)
        + ">\n  <rect width=\"100%\" height=\"100%\" fill=\"white\"/>\n  "@
}

/// The SVG document of an element list: the preamble, the markup of each
/// item that can be drawn, each on a line of its own, and the closing tag.
pub open spec fn document(
    elements: JsonView,
    measures: Seq<Option<Measures<String>>>,
    width: u32,
    height: u32,
) -> Seq<char> {
    let items = elements.items();
    preamble(width, height) + joined(fragments(items, measures, items.len()), "\n  "@)
        + "\n</svg>"@
}

fn push_preamble(out: &mut String, width: u32, height: u32)
    ensures
        final(out)@ == old(out)@ + preamble(width, height),
{
    let mut head = String::from_str("<?xml version=\"1.0\" encoding=\"UTF-8\"?>\n<svg");
    let mut wide = String::new();
    push_decimal(&mut wide, width as u64);
    let mut high = String::new();
    push_decimal(&mut high, height as u64);
    let mut view_box = String::from_str("0 0 ");
    view_box.append(wide.as_str());
    view_box.append(" ");
    view_box.append(high.as_str());
    push_attribute(&mut head, "width", wide.as_str());
    push_attribute(&mut head, "height", high.as_str());
    push_attribute(&mut head, "viewBox", view_box.as_str());
    push_attribute(&mut head, "xmlns", "http://www.w3.org/2000/svg");
    head.append(">\n  <rect width=\"100%\" height=\"100%\" fill=\"white\"/>\n  ");
    out.append(head.as_str());
}

/// The SVG document of an element list, given for each item, at the same
/// position, the decimal texts of its quantities. Items that cannot be drawn
/// are left out, and so is an item for which no measures are given; the
/// others keep their order. A value that is no array draws nothing.
pub fn generate_svg(
    elements: &Json,
    measures: &Vec<Option<Measures<String>>>,
    width: u32,
    height: u32,
) -> (svg: String)
    ensures
        svg@ == document(elements@, measures@, width, height),
{
    let mut parts: Vec<String> = Vec::new();
    if let Some(items) = elements.as_array() {
        let mut i: usize = 0;
        while i < items.len()
            invariant
                i <= items.len(),
                elements@.items() == views(items@),
                text_views(parts@) == fragments(views(items@), measures@, i as nat),
            decreases items.len() - i,
        {
            if i < measures.len() {
                if let Some(given) = &measures[i] {
                    if let Some(markup) = convert_element_to_svg(&items[i], given) {
                        parts.push(markup);
                    }
                }
            }
            i += 1;
        }
    }
    let mut svg = String::new();
    push_preamble(&mut svg, width, height);
    push_joined(&mut svg, &parts, "\n  ");
    svg.append("\n</svg>");
    svg
}

} // verus!
