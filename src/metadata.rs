use vstd::prelude::*;

use crate::element::{Element, ElementView, attribute_of, text_eq};

verus! {

/// Text directionality of an element's content.
#[derive(Clone, Copy, Debug, PartialEq, Eq, Structural)]
pub enum Direction {
    Ltr,
    Rtl,
}

/// The direction a `dir` token names: exactly `ltr` or `rtl`, compared
/// character for character.
pub open spec fn direction_of(s: Seq<char>) -> Option<Direction> {
    if s == "ltr"@ {
        Some(Direction::Ltr)
    } else if s == "rtl"@ {
        Some(Direction::Rtl)
    } else {
        None
    }
}

impl Direction {
    /// Parses a `dir` token. Any token but `ltr` and `rtl` is refused, and the
    /// error carries the token as it was given.
    pub fn parse(s: &str) -> (r: Result<Direction, String>)
        ensures
            r is Ok <==> (s@ == "ltr"@ || s@ == "rtl"@),
            match r {
                Ok(d) => direction_of(s@) == Some(d),
                Err(e) => direction_of(s@) is None && e@ == s@,
            },
    {
        if text_eq(s, "ltr") {
            Ok(Direction::Ltr)
        } else if text_eq(s, "rtl") {
            Ok(Direction::Rtl)
        } else {
            Err(s.to_owned())
        }
    }
}

impl std::str::FromStr for Direction {
    type Err = String;

    fn from_str(s: &str) -> (r: Result<Direction, String>)
        ensures
            r is Ok <==> (s@ == "ltr"@ || s@ == "rtl"@),
            match r {
                Ok(d) => direction_of(s@) == Some(d),
                Err(e) => direction_of(s@) is None && e@ == s@,
            },
    {
        Direction::parse(s)
    }
}

/// The `id` attribute of an element, or no value where it has none.
#[derive(Debug, PartialEq, Eq)]
pub struct Id(pub Option<String>);

impl View for Id {
    type V = Option<Seq<char>>;

    open spec fn view(&self) -> Option<Seq<char>> {
        match self.0 {
            Some(s) => Some(s@),
            None => None,
        }
    }
}

impl Id {
    /// Copies out the element's `id` attribute, exactly as it is written.
    pub fn extract(element: &Element) -> (r: Id)
        ensures
            r@ == attribute_of(element@.attributes, "id"@),
    {
        match element.attribute("id") {
            Some(s) => Id(Some(s.clone())),
            None => Id(None),
        }
    }
}

/// A language tag, carried as it is written.
#[derive(Debug)]
pub struct XmlLang(pub String);

/// A validated Dublin Core `title` element.
pub struct TitleElement {
    pub id: Id,
    pub dir: Option<Direction>,
    pub lang: Option<XmlLang>,
}

/// A classified metadata element.
pub enum Metadata {
    Title(TitleElement),
    Invalid,
}

/// Whether an element is a Dublin Core title: tag `title` in the namespace
/// written `dc`.
pub open spec fn is_dc_title(e: ElementView) -> bool {
    e.name == "title"@ && e.namespace == Some("dc"@)
}

/// The direction an element's `dir` attribute gives; no value where the
/// attribute is absent or holds an unknown token.
pub open spec fn direction_attribute(e: ElementView) -> Option<Direction> {
    match attribute_of(e.attributes, "dir"@) {
        Some(v) => direction_of(v),
        None => None,
    }
}

impl Metadata {
    /// Classifies an element. A Dublin Core title becomes a `Title` record
    /// with its `id`, its direction (dropped where the token is unknown) and
    /// no language; every other element gives no record.
    pub fn from(elem: Element) -> (r: Option<Metadata>)
        ensures
            elem@.name != "title"@ || elem@.namespace is None ==> r is None,
            elem@.name == "title"@ && elem@.namespace == Some("dc"@) ==> r matches Some(Metadata::Title(_)),
            elem@.name == "title"@ && elem@.namespace is Some && elem@.namespace != Some("dc"@) ==> r is None,
            r is Some <==> is_dc_title(elem@),
            r matches Some(m) ==> (m matches Metadata::Title(t) && t.id@ == attribute_of(elem@.attributes, "id"@)
                && t.dir == direction_attribute(elem@) && t.lang is None),
    {
        if !text_eq(elem.name.as_str(), "title") {
            return None;
        }
        match &elem.namespace {
            Some(ns) => {
                if text_eq(ns.as_str(), "dc") {
                    let id = Id::extract(&elem);
                    let dir = match elem.attribute("dir") {
                        Some(d) => match Direction::parse(d.as_str()) {
                            Ok(v) => Some(v),
                            Err(_) => None,
                        },
                        None => None,
                    };
                    Some(Metadata::Title(TitleElement { id, dir, lang: None }))
                } else {
                    None
                }
            },
            None => None,
        }
    }
}

} // verus!
