//! Display preferences, as the settings file gives them, and the values
//! that stand in for what it leaves out.

use crate::address::{copy_opt, view_opt};
use vstd::prelude::*;

verus! {

/// The settings file as a whole. Every part of it may be missing.
#[derive(Debug, Clone, PartialEq, Eq)]
pub struct Settings {
    pub general: Option<General>,
    pub colors: Option<Color>,
    pub characters: Option<Character>,
    pub fonts: Option<Font>,
}

/// The general part.
#[derive(Debug, Clone, PartialEq, Eq)]
pub struct General {
    pub start_url: Option<String>,
}

/// The colours of the parts of a page.
#[derive(Debug, Clone, PartialEq, Eq)]
pub struct Color {
    pub h1: Option<String>,
    pub h2: Option<String>,
    pub h3: Option<String>,
    pub list: Option<String>,
    pub text: Option<String>,
    pub background: Option<String>,
}

/// The characters put in front of headings and list items.
#[derive(Debug, Clone, PartialEq, Eq)]
pub struct Character {
    pub h1: Option<String>,
    pub h2: Option<String>,
    pub h3: Option<String>,
    pub list: Option<String>,
}

/// The fonts, per protocol.
#[derive(Debug, Clone, PartialEq, Eq)]
pub struct Font {
    pub finger: Option<FontAttr>,
    pub gemini: Option<GeminiFontAttr>,
    pub gopher: Option<FontAttr>,
}

/// One font: family, style, and size in points.
#[derive(Debug, Clone, PartialEq, Eq)]
pub struct FontAttr {
    pub family: Option<String>,
    pub style: Option<String>,
    pub size: Option<i32>,
}

/// The fonts of the parts of a Gemini page.
#[derive(Debug, Clone, PartialEq, Eq)]
pub struct GeminiFontAttr {
    pub text: Option<FontAttr>,
    pub h1: Option<FontAttr>,
    pub h2: Option<FontAttr>,
    pub h3: Option<FontAttr>,
    pub list: Option<FontAttr>,
}

/// Pango's units per point.
pub const PANGO_SCALE: i32 = 1024;

/// The size of text, in Pango units, where none is set.
pub const DEFAULT_FONT_SIZE: i32 = 11264;

/// The size of first-level headings, in Pango units, where none is set.
pub const DEFAULT_H1_FONT_SIZE: i32 = 16384;

/// The size of second-level headings, in Pango units, where none is set.
pub const DEFAULT_H2_FONT_SIZE: i32 = 13312;

/// The size of third-level headings, in Pango units, where none is set.
pub const DEFAULT_H3_FONT_SIZE: i32 = 12288;

/// `value` if there is one, else `default`.
pub open spec fn or_text(value: Option<Seq<char>>, default: Seq<char>) -> Seq<char> {
    match value {
        Some(v) => v,
        None => default,
    }
}

/// A size in points as Pango units if there is one, else `default`.
pub open spec fn or_scaled(points: Option<i32>, default: i32) -> int {
    match points {
        Some(p) => p * PANGO_SCALE,
        None => default as int,
    }
}

/// Whether a size in points, if there is one, can be held in Pango units.
pub open spec fn scales(points: Option<i32>) -> bool {
    match points {
        Some(p) => i32::MIN <= p * PANGO_SCALE <= i32::MAX,
        None => true,
    }
}

/// Decides [`scales`].
pub fn fits(points: Option<i32>) -> (r: bool)
    ensures
        r == scales(points),
{
    match points {
        Some(p) => -2097152 <= p && p <= 2097151,
        None => true,
    }
}

/// Computes [`or_text`].
pub fn text_or(value: Option<String>, default: &str) -> (r: String)
    ensures
        r@ == or_text(view_opt(value), default@),
{
    match value {
        Some(v) => v,
        None => default.to_owned(),
    }
}

/// Computes [`or_scaled`].
pub fn scaled_or(points: Option<i32>, default: i32) -> (r: i32)
    requires
        scales(points),
    ensures
        r == or_scaled(points, default),
{
    match points {
        Some(p) => p * PANGO_SCALE,
        None => default,
    }
}

/// The colours, if the file has that part.
pub fn colors(settings: &Settings) -> (r: Option<&Color>)
    ensures
        r is Some == settings.colors is Some,
        r is Some ==> *r.unwrap() == settings.colors.unwrap(),
{
    settings.colors.as_ref()
}

/// The characters, if the file has that part.
pub fn characters(settings: &Settings) -> (r: Option<&Character>)
    ensures
        r is Some == settings.characters is Some,
        r is Some ==> *r.unwrap() == settings.characters.unwrap(),
{
    settings.characters.as_ref()
}

impl Settings {
    /// The font of Finger pages, if one is set.
    pub open spec fn finger_font(self) -> Option<FontAttr> {
        match self.fonts {
            Some(f) => f.finger,
            None => None,
        }
    }

    /// The font of Gopher pages, if one is set.
    pub open spec fn gopher_font(self) -> Option<FontAttr> {
        match self.fonts {
            Some(f) => f.gopher,
            None => None,
        }
    }

    /// The fonts of Gemini pages, if any is set.
    pub open spec fn gemini_fonts(self) -> Option<GeminiFontAttr> {
        match self.fonts {
            Some(f) => f.gemini,
            None => None,
        }
    }

    /// The font of text on Gemini pages, if one is set.
    pub open spec fn gemini_text_font(self) -> Option<FontAttr> {
        match self.gemini_fonts() {
            Some(g) => g.text,
            None => None,
        }
    }

    /// The font of first-level headings on Gemini pages, if one is set.
    pub open spec fn gemini_h1_font(self) -> Option<FontAttr> {
        match self.gemini_fonts() {
            Some(g) => g.h1,
            None => None,
        }
    }

    /// The font of second-level headings on Gemini pages, if one is set.
    pub open spec fn gemini_h2_font(self) -> Option<FontAttr> {
        match self.gemini_fonts() {
            Some(g) => g.h2,
            None => None,
        }
    }

    /// The font of third-level headings on Gemini pages, if one is set.
    pub open spec fn gemini_h3_font(self) -> Option<FontAttr> {
        match self.gemini_fonts() {
            Some(g) => g.h3,
            None => None,
        }
    }

    /// The font of list items on Gemini pages, if one is set.
    pub open spec fn gemini_list_font(self) -> Option<FontAttr> {
        match self.gemini_fonts() {
            Some(g) => g.list,
            None => None,
        }
    }
}

/// The family of a font that may be missing.
pub open spec fn family_of(font: Option<FontAttr>) -> Option<Seq<char>> {
    match font {
        Some(f) => view_opt(f.family),
        None => None,
    }
}

/// The style of a font that may be missing.
pub open spec fn style_of(font: Option<FontAttr>) -> Option<Seq<char>> {
    match font {
        Some(f) => view_opt(f.style),
        None => None,
    }
}

/// The size in points of a font that may be missing.
pub open spec fn size_of(font: Option<FontAttr>) -> Option<i32> {
    match font {
        Some(f) => f.size,
        None => None,
    }
}

/// The font of Finger pages.
pub fn finger_font(settings: &Settings) -> (r: Option<&FontAttr>)
    ensures
        r is Some == settings.finger_font() is Some,
        r is Some ==> *r.unwrap() == settings.finger_font().unwrap(),
{
    match &settings.fonts {
        Some(f) => f.finger.as_ref(),
        None => None,
    }
}

/// The font of Gopher pages.
pub fn gopher_font(settings: &Settings) -> (r: Option<&FontAttr>)
    ensures
        r is Some == settings.gopher_font() is Some,
        r is Some ==> *r.unwrap() == settings.gopher_font().unwrap(),
{
    match &settings.fonts {
        Some(f) => f.gopher.as_ref(),
        None => None,
    }
}

/// The fonts of Gemini pages.
pub fn gemini_fonts(settings: &Settings) -> (r: Option<&GeminiFontAttr>)
    ensures
        r is Some == settings.gemini_fonts() is Some,
        r is Some ==> *r.unwrap() == settings.gemini_fonts().unwrap(),
{
    match &settings.fonts {
        Some(f) => f.gemini.as_ref(),
        None => None,
    }
}

/// Computes [`family_of`].
pub fn family(font: Option<&FontAttr>) -> (r: Option<String>)
    ensures
        view_opt(r) == family_of(
            match font {
                Some(f) => Some(*f),
                None => None,
            },
        ),
{
    match font {
        Some(f) => copy_opt(&f.family),
        None => None,
    }
}

/// Computes [`style_of`].
pub fn style(font: Option<&FontAttr>) -> (r: Option<String>)
    ensures
        view_opt(r) == style_of(
            match font {
                Some(f) => Some(*f),
                None => None,
            },
        ),
{
    match font {
        Some(f) => copy_opt(&f.style),
        None => None,
    }
}

/// Computes [`size_of`].
pub fn size(font: Option<&FontAttr>) -> (r: Option<i32>)
    ensures
        r == size_of(
            match font {
                Some(f) => Some(*f),
                None => None,
            },
        ),
{
    match font {
        Some(f) => f.size,
        None => None,
    }
}

/// The address to open at start, if one is set.
pub open spec fn spec_start_url(s: Settings) -> Option<Seq<char>> {
    match s.general {
        Some(g) => view_opt(g.start_url),
        None => None,
    }
}

/// The address to open at start, if one is set.
pub fn start_url(settings: &Settings) -> (r: Option<String>)
    ensures
        view_opt(r) == spec_start_url(*settings),
{
    match &settings.general {
        Some(general) => copy_opt(&general.start_url),
        None => None,
    }
}

/// The size of Finger text in points. Where the file has a Finger font
/// without a size, this is the default size in Pango units.
pub open spec fn spec_finger_font_size(s: Settings) -> Option<i32> {
    match s.finger_font() {
        Some(f) => match f.size {
            Some(size) => Some(size),
            None => Some(DEFAULT_FONT_SIZE),
        },
        None => None,
    }
}

fn finger_font_family(settings: &Settings) -> (r: Option<String>)
    ensures
        view_opt(r) == family_of(settings.finger_font()),
{
    family(finger_font(settings))
}

fn finger_font_size(settings: &Settings) -> (r: Option<i32>)
    ensures
        r == spec_finger_font_size(*settings),
{
    match finger_font(settings) {
        Some(f) => match f.size {
            Some(size) => Some(size),
            None => Some(DEFAULT_FONT_SIZE),
        },
        None => None,
    }
}

/// The font family of Finger pages, `serif` where none is set.
pub fn get_finger_font_family(settings: &Settings) -> (r: String)
    ensures
        r@ == or_text(family_of(settings.finger_font()), "serif"@),
{
    text_or(finger_font_family(settings), "serif")
}

/// The font size of Finger pages in Pango units.
pub fn get_finger_font_size(settings: &Settings) -> (r: i32)
    requires
        scales(spec_finger_font_size(*settings)),
    ensures
        r == or_scaled(spec_finger_font_size(*settings), DEFAULT_FONT_SIZE),
{
    scaled_or(finger_font_size(settings), DEFAULT_FONT_SIZE)
}

/// The font of text on Gemini pages.
pub fn gemini_text_font(settings: &Settings) -> (r: Option<&FontAttr>)
    ensures
        r is Some == settings.gemini_text_font() is Some,
        r is Some ==> *r.unwrap() == settings.gemini_text_font().unwrap(),
{
    match gemini_fonts(settings) {
        Some(g) => g.text.as_ref(),
        None => None,
    }
}

fn gemini_text_font_family(settings: &Settings) -> (r: Option<String>)
    ensures
        view_opt(r) == family_of(settings.gemini_text_font()),
{
    family(gemini_text_font(settings))
}

fn gemini_text_font_size(settings: &Settings) -> (r: Option<i32>)
    ensures
        r == size_of(settings.gemini_text_font()),
{
    size(gemini_text_font(settings))
}

/// The font size of text on Gemini pages in Pango units.
pub fn get_gemini_text_font_size(settings: &Settings) -> (r: i32)
    requires
        scales(size_of(settings.gemini_text_font())),
    ensures
        r == or_scaled(size_of(settings.gemini_text_font()), DEFAULT_FONT_SIZE),
{
    scaled_or(gemini_text_font_size(settings), DEFAULT_FONT_SIZE)
}

/// The font family of text on Gemini pages, `serif` where none is set.
pub fn get_gemini_text_font_family(settings: &Settings) -> (r: String)
    ensures
        r@ == or_text(family_of(settings.gemini_text_font()), "serif"@),
{
    text_or(gemini_text_font_family(settings), "serif")
}

/// The font of first-level headings on Gemini pages.
pub fn gemini_h1_font(settings: &Settings) -> (r: Option<&FontAttr>)
    ensures
        r is Some == settings.gemini_h1_font() is Some,
        r is Some ==> *r.unwrap() == settings.gemini_h1_font().unwrap(),
{
    match gemini_fonts(settings) {
        Some(g) => g.h1.as_ref(),
        None => None,
    }
}

fn gemini_h1_font_family(settings: &Settings) -> (r: Option<String>)
    ensures
        view_opt(r) == family_of(settings.gemini_h1_font()),
{
    family(gemini_h1_font(settings))
}

fn gemini_h1_font_size(settings: &Settings) -> (r: Option<i32>)
    ensures
        r == size_of(settings.gemini_h1_font()),
{
    size(gemini_h1_font(settings))
}

fn gemini_h1_font_style(settings: &Settings) -> (r: Option<String>)
    ensures
        view_opt(r) == style_of(settings.gemini_h1_font()),
{
    style(gemini_h1_font(settings))
}

/// The font size of first-level headings on Gemini pages in Pango units.
pub fn get_gemini_h1_font_size(settings: &Settings) -> (r: i32)
    requires
        scales(size_of(settings.gemini_h1_font())),
    ensures
        r == or_scaled(size_of(settings.gemini_h1_font()), DEFAULT_H1_FONT_SIZE),
{
    scaled_or(gemini_h1_font_size(settings), DEFAULT_H1_FONT_SIZE)
}

/// The font family of first-level headings on Gemini pages, `serif` where none is set.
pub fn get_gemini_h1_font_family(settings: &Settings) -> (r: String)
    ensures
        r@ == or_text(family_of(settings.gemini_h1_font()), "serif"@),
{
    text_or(gemini_h1_font_family(settings), "serif")
}

/// The font style of first-level headings on Gemini pages, `normal` where none is set.
pub fn get_gemini_h1_font_style(settings: &Settings) -> (r: String)
    ensures
        r@ == or_text(style_of(settings.gemini_h1_font()), "normal"@),
{
    text_or(gemini_h1_font_style(settings), "normal")
}

/// The font of second-level headings on Gemini pages.
pub fn gemini_h2_font(settings: &Settings) -> (r: Option<&FontAttr>)
    ensures
        r is Some == settings.gemini_h2_font() is Some,
        r is Some ==> *r.unwrap() == settings.gemini_h2_font().unwrap(),
{
    match gemini_fonts(settings) {
        Some(g) => g.h2.as_ref(),
        None => None,
    }
}

fn gemini_h2_font_family(settings: &Settings) -> (r: Option<String>)
    ensures
        view_opt(r) == family_of(settings.gemini_h2_font()),
{
    family(gemini_h2_font(settings))
}

fn gemini_h2_font_size(settings: &Settings) -> (r: Option<i32>)
    ensures
        r == size_of(settings.gemini_h2_font()),
{
    size(gemini_h2_font(settings))
}

fn gemini_h2_font_style(settings: &Settings) -> (r: Option<String>)
    ensures
        view_opt(r) == style_of(settings.gemini_h2_font()),
{
    style(gemini_h2_font(settings))
}

/// The font size of second-level headings on Gemini pages in Pango units.
pub fn get_gemini_h2_font_size(settings: &Settings) -> (r: i32)
    requires
        scales(size_of(settings.gemini_h2_font())),
    ensures
        r == or_scaled(size_of(settings.gemini_h2_font()), DEFAULT_H2_FONT_SIZE),
{
    scaled_or(gemini_h2_font_size(settings), DEFAULT_H2_FONT_SIZE)
}

/// The font family of second-level headings on Gemini pages, `serif` where none is set.
pub fn get_gemini_h2_font_family(settings: &Settings) -> (r: String)
    ensures
        r@ == or_text(family_of(settings.gemini_h2_font()), "serif"@),
{
    text_or(gemini_h2_font_family(settings), "serif")
}

/// The font style of second-level headings on Gemini pages, `normal` where none is set.
pub fn get_gemini_h2_font_style(settings: &Settings) -> (r: String)
    ensures
        r@ == or_text(style_of(settings.gemini_h2_font()), "normal"@),
{
    text_or(gemini_h2_font_style(settings), "normal")
}

/// The font of third-level headings on Gemini pages.
pub fn gemini_h3_font(settings: &Settings) -> (r: Option<&FontAttr>)
    ensures
        r is Some == settings.gemini_h3_font() is Some,
        r is Some ==> *r.unwrap() == settings.gemini_h3_font().unwrap(),
{
    match gemini_fonts(settings) {
        Some(g) => g.h3.as_ref(),
        None => None,
    }
}

fn gemini_h3_font_family(settings: &Settings) -> (r: Option<String>)
    ensures
        view_opt(r) == family_of(settings.gemini_h3_font()),
{
    family(gemini_h3_font(settings))
}

fn gemini_h3_font_size(settings: &Settings) -> (r: Option<i32>)
    ensures
        r == size_of(settings.gemini_h3_font()),
{
    size(gemini_h3_font(settings))
}

fn gemini_h3_font_style(settings: &Settings) -> (r: Option<String>)
    ensures
        view_opt(r) == style_of(settings.gemini_h3_font()),
{
    style(gemini_h3_font(settings))
}

/// The font size of third-level headings on Gemini pages in Pango units.
pub fn get_gemini_h3_font_size(settings: &Settings) -> (r: i32)
    requires
        scales(size_of(settings.gemini_h3_font())),
    ensures
        r == or_scaled(size_of(settings.gemini_h3_font()), DEFAULT_H3_FONT_SIZE),
{
    scaled_or(gemini_h3_font_size(settings), DEFAULT_H3_FONT_SIZE)
}

/// The font family of third-level headings on Gemini pages, `serif` where none is set.
pub fn get_gemini_h3_font_family(settings: &Settings) -> (r: String)
    ensures
        r@ == or_text(family_of(settings.gemini_h3_font()), "serif"@),
{
    text_or(gemini_h3_font_family(settings), "serif")
}

/// The font style of third-level headings on Gemini pages, `normal` where none is set.
pub fn get_gemini_h3_font_style(settings: &Settings) -> (r: String)
    ensures
        r@ == or_text(style_of(settings.gemini_h3_font()), "normal"@),
{
    text_or(gemini_h3_font_style(settings), "normal")
}

/// The font of list items on Gemini pages.
pub fn gemini_list_font(settings: &Settings) -> (r: Option<&FontAttr>)
    ensures
        r is Some == settings.gemini_list_font() is Some,
        r is Some ==> *r.unwrap() == settings.gemini_list_font().unwrap(),
{
    match gemini_fonts(settings) {
        Some(g) => g.list.as_ref(),
        None => None,
    }
}

fn gemini_list_font_family(settings: &Settings) -> (r: Option<String>)
    ensures
        view_opt(r) == family_of(settings.gemini_list_font()),
{
    family(gemini_list_font(settings))
}

fn gemini_list_font_size(settings: &Settings) -> (r: Option<i32>)
    ensures
        r == size_of(settings.gemini_list_font()),
{
    size(gemini_list_font(settings))
}

fn gemini_list_font_style(settings: &Settings) -> (r: Option<String>)
    ensures
        view_opt(r) == style_of(settings.gemini_list_font()),
{
    style(gemini_list_font(settings))
}

/// The font size of list items on Gemini pages in Pango units.
pub fn get_gemini_list_font_size(settings: &Settings) -> (r: i32)
    requires
        scales(size_of(settings.gemini_list_font())),
    ensures
        r == or_scaled(size_of(settings.gemini_list_font()), DEFAULT_FONT_SIZE),
{
    scaled_or(gemini_list_font_size(settings), DEFAULT_FONT_SIZE)
}

/// The font family of list items on Gemini pages, `serif` where none is set.
pub fn get_gemini_list_font_family(settings: &Settings) -> (r: String)
    ensures
        r@ == or_text(family_of(settings.gemini_list_font()), "serif"@),
{
    text_or(gemini_list_font_family(settings), "serif")
}

/// The font style of list items on Gemini pages, `normal` where none is set.
pub fn get_gemini_list_font_style(settings: &Settings) -> (r: String)
    ensures
        r@ == or_text(style_of(settings.gemini_list_font()), "normal"@),
{
    text_or(gemini_list_font_style(settings), "normal")
}

fn gopher_font_family(settings: &Settings) -> (r: Option<String>)
    ensures
        view_opt(r) == family_of(settings.gopher_font()),
{
    family(gopher_font(settings))
}

fn gopher_font_size(settings: &Settings) -> (r: Option<i32>)
    ensures
        r == size_of(settings.gopher_font()),
{
    size(gopher_font(settings))
}

/// The font family of Gopher pages, `serif` where none is set.
pub fn get_gopher_font_family(settings: &Settings) -> (r: String)
    ensures
        r@ == or_text(family_of(settings.gopher_font()), "serif"@),
{
    text_or(gopher_font_family(settings), "serif")
}

/// The font size of Gopher pages in Pango units.
pub fn get_gopher_font_size(settings: &Settings) -> (r: i32)
    requires
        scales(size_of(settings.gopher_font())),
    ensures
        r == or_scaled(size_of(settings.gopher_font()), DEFAULT_FONT_SIZE),
{
    scaled_or(gopher_font_size(settings), DEFAULT_FONT_SIZE)
}

/// The colour set for first-level headings, if any.
pub open spec fn spec_h1_color(s: Settings) -> Option<Seq<char>> {
    match s.colors {
        Some(c) => view_opt(c.h1),
        None => None,
    }
}

fn h1_color(settings: &Settings) -> (r: Option<String>)
    ensures
        view_opt(r) == spec_h1_color(*settings),
{
    match colors(settings) {
        Some(c) => copy_opt(&c.h1),
        None => None,
    }
}

/// The colour of first-level headings, `#9932CC` where none is set.
pub fn get_h1_color(settings: &Settings) -> (r: String)
    ensures
        r@ == or_text(spec_h1_color(*settings), "#9932CC"@),
{
    text_or(h1_color(settings), "#9932CC")
}

/// The colour set for second-level headings, if any.
pub open spec fn spec_h2_color(s: Settings) -> Option<Seq<char>> {
    match s.colors {
        Some(c) => view_opt(c.h2),
        None => None,
    }
}

fn h2_color(settings: &Settings) -> (r: Option<String>)
    ensures
        view_opt(r) == spec_h2_color(*settings),
{
    match colors(settings) {
        Some(c) => copy_opt(&c.h2),
        None => None,
    }
}

/// The colour of second-level headings, `#FF1493` where none is set.
pub fn get_h2_color(settings: &Settings) -> (r: String)
    ensures
        r@ == or_text(spec_h2_color(*settings), "#FF1493"@),
{
    text_or(h2_color(settings), "#FF1493")
}

/// The colour set for third-level headings, if any.
pub open spec fn spec_h3_color(s: Settings) -> Option<Seq<char>> {
    match s.colors {
        Some(c) => view_opt(c.h3),
        None => None,
    }
}

fn h3_color(settings: &Settings) -> (r: Option<String>)
    ensures
        view_opt(r) == spec_h3_color(*settings),
{
    match colors(settings) {
        Some(c) => copy_opt(&c.h3),
        None => None,
    }
}

/// The colour of third-level headings, `#87CEFA` where none is set.
pub fn get_h3_color(settings: &Settings) -> (r: String)
    ensures
        r@ == or_text(spec_h3_color(*settings), "#87CEFA"@),
{
    text_or(h3_color(settings), "#87CEFA")
}

/// The colour set for list items, if any.
pub open spec fn spec_list_color(s: Settings) -> Option<Seq<char>> {
    match s.colors {
        Some(c) => view_opt(c.list),
        None => None,
    }
}

fn list_color(settings: &Settings) -> (r: Option<String>)
    ensures
        view_opt(r) == spec_list_color(*settings),
{
    match colors(settings) {
        Some(c) => copy_opt(&c.list),
        None => None,
    }
}

/// The colour of list items, `green` where none is set.
pub fn get_list_color(settings: &Settings) -> (r: String)
    ensures
        r@ == or_text(spec_list_color(*settings), "green"@),
{
    text_or(list_color(settings), "green")
}

/// The colour set for text, if any.
pub open spec fn spec_text_color(s: Settings) -> Option<Seq<char>> {
    match s.colors {
        Some(c) => view_opt(c.text),
        None => None,
    }
}

fn text_color(settings: &Settings) -> (r: Option<String>)
    ensures
        view_opt(r) == spec_text_color(*settings),
{
    match colors(settings) {
        Some(c) => copy_opt(&c.text),
        None => None,
    }
}

/// The colour of text, `black` where none is set.
pub fn get_text_color(settings: &Settings) -> (r: String)
    ensures
        r@ == or_text(spec_text_color(*settings), "black"@),
{
    text_or(text_color(settings), "black")
}

/// The colour set for the background, if any.
pub open spec fn spec_background_color(s: Settings) -> Option<Seq<char>> {
    match s.colors {
        Some(c) => view_opt(c.background),
        None => None,
    }
}

/// The colour of the background, if one is set.
pub fn background_color(settings: &Settings) -> (r: Option<String>)
    ensures
        view_opt(r) == spec_background_color(*settings),
{
    match colors(settings) {
        Some(c) => copy_opt(&c.background),
        None => None,
    }
}

/// The character set for first-level headings, if any.
pub open spec fn spec_h1_character(s: Settings) -> Option<Seq<char>> {
    match s.characters {
        Some(c) => view_opt(c.h1),
        None => None,
    }
}

fn h1_character(settings: &Settings) -> (r: Option<String>)
    ensures
        view_opt(r) == spec_h1_character(*settings),
{
    match characters(settings) {
        Some(c) => copy_opt(&c.h1),
        None => None,
    }
}

/// The character in front of first-level headings, nothing where none is set.
pub fn get_h1_character(settings: &Settings) -> (r: String)
    ensures
        r@ == or_text(spec_h1_character(*settings), ""@),
{
    text_or(h1_character(settings), "")
}

/// The character set for second-level headings, if any.
pub open spec fn spec_h2_character(s: Settings) -> Option<Seq<char>> {
    match s.characters {
        Some(c) => view_opt(c.h2),
        None => None,
    }
}

fn h2_character(settings: &Settings) -> (r: Option<String>)
    ensures
        view_opt(r) == spec_h2_character(*settings),
{
    match characters(settings) {
        Some(c) => copy_opt(&c.h2),
        None => None,
    }
}

/// The character in front of second-level headings, nothing where none is set.
pub fn get_h2_character(settings: &Settings) -> (r: String)
    ensures
        r@ == or_text(spec_h2_character(*settings), ""@),
{
    text_or(h2_character(settings), "")
}

/// The character set for third-level headings, if any.
pub open spec fn spec_h3_character(s: Settings) -> Option<Seq<char>> {
    match s.characters {
        Some(c) => view_opt(c.h3),
        None => None,
    }
}

fn h3_character(settings: &Settings) -> (r: Option<String>)
    ensures
        view_opt(r) == spec_h3_character(*settings),
{
    match characters(settings) {
        Some(c) => copy_opt(&c.h3),
        None => None,
    }
}

/// The character in front of third-level headings, nothing where none is set.
pub fn get_h3_character(settings: &Settings) -> (r: String)
    ensures
        r@ == or_text(spec_h3_character(*settings), ""@),
{
    text_or(h3_character(settings), "")
}

/// The character set for list items, if any.
pub open spec fn spec_list_character(s: Settings) -> Option<Seq<char>> {
    match s.characters {
        Some(c) => view_opt(c.list),
        None => None,
    }
}

fn list_character(settings: &Settings) -> (r: Option<String>)
    ensures
        view_opt(r) == spec_list_character(*settings),
{
    match characters(settings) {
        Some(c) => copy_opt(&c.list),
        None => None,
    }
}

/// The character in front of list items, a black square where none is set.
pub fn get_list_character(settings: &Settings) -> (r: String)
    ensures
        r@ == or_text(spec_list_character(*settings), "\u{25a0}"@),
{
    text_or(list_character(settings), "\u{25a0}")
}

} // verus!
