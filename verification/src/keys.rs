//! The keys of the wire format.

use crate::text::shape;
use vstd::prelude::*;

verus! {

/// The shape of every key that an object is written with. No two keys of one
/// object have the same shape, which tells them apart.
pub proof fn lemma_key_shapes()
    ensures
        shape("$schema"@) == (7nat, '$', 'a'),
        shape("actions"@) == (7nat, 'a', 's'),
        shape("altText"@) == (7nat, 'a', 't'),
        shape("associatedInputs"@) == (16nat, 'a', 's'),
        shape("backgroundColor"@) == (15nat, 'b', 'r'),
        shape("bleed"@) == (5nat, 'b', 'd'),
        shape("body"@) == (4nat, 'b', 'y'),
        shape("card"@) == (4nat, 'c', 'd'),
        shape("choices"@) == (7nat, 'c', 's'),
        shape("color"@) == (5nat, 'c', 'r'),
        shape("columns"@) == (7nat, 'c', 's'),
        shape("data"@) == (4nat, 'd', 'a'),
        shape("errorMessage"@) == (12nat, 'e', 'e'),
        shape("facts"@) == (5nat, 'f', 's'),
        shape("fallbackText"@) == (12nat, 'f', 't'),
        shape("fontType"@) == (8nat, 'f', 'e'),
        shape("height"@) == (6nat, 'h', 't'),
        shape("highlight"@) == (9nat, 'h', 't'),
        shape("horizontalAlignment"@) == (19nat, 'h', 't'),
        shape("iconUrl"@) == (7nat, 'i', 'l'),
        shape("id"@) == (2nat, 'i', 'd'),
        shape("inlines"@) == (7nat, 'i', 's'),
        shape("isEnabled"@) == (9nat, 'i', 'd'),
        shape("isMultiSelect"@) == (13nat, 'i', 't'),
        shape("isMultiline"@) == (11nat, 'i', 'e'),
        shape("isRequired"@) == (10nat, 'i', 'd'),
        shape("isSubtle"@) == (8nat, 'i', 'e'),
        shape("isVisible"@) == (9nat, 'i', 'e'),
        shape("italic"@) == (6nat, 'i', 'c'),
        shape("items"@) == (5nat, 'i', 's'),
        shape("label"@) == (5nat, 'l', 'l'),
        shape("lang"@) == (4nat, 'l', 'g'),
        shape("max"@) == (3nat, 'm', 'x'),
        shape("maxLength"@) == (9nat, 'm', 'h'),
        shape("maxLines"@) == (8nat, 'm', 's'),
        shape("min"@) == (3nat, 'm', 'n'),
        shape("minHeight"@) == (9nat, 'm', 't'),
        shape("mode"@) == (4nat, 'm', 'e'),
        shape("msteams"@) == (7nat, 'm', 's'),
        shape("placeholder"@) == (11nat, 'p', 'r'),
        shape("regex"@) == (5nat, 'r', 'x'),
        shape("rtl"@) == (3nat, 'r', 'l'),
        shape("selectAction"@) == (12nat, 's', 'n'),
        shape("separator"@) == (9nat, 's', 'r'),
        shape("size"@) == (4nat, 's', 'e'),
        shape("spacing"@) == (7nat, 's', 'g'),
        shape("strikethrough"@) == (13nat, 's', 'h'),
        shape("style"@) == (5nat, 's', 'e'),
        shape("targetElements"@) == (14nat, 't', 's'),
        shape("text"@) == (4nat, 't', 't'),
        shape("title"@) == (5nat, 't', 'e'),
        shape("tooltip"@) == (7nat, 't', 'p'),
        shape("type"@) == (4nat, 't', 'e'),
        shape("url"@) == (3nat, 'u', 'l'),
        shape("value"@) == (5nat, 'v', 'e'),
        shape("valueOff"@) == (8nat, 'v', 'f'),
        shape("valueOn"@) == (7nat, 'v', 'n'),
        shape("version"@) == (7nat, 'v', 'n'),
        shape("verticalContentAlignment"@) == (24nat, 'v', 't'),
        shape("weight"@) == (6nat, 'w', 't'),
        shape("width"@) == (5nat, 'w', 'h'),
        shape("wrap"@) == (4nat, 'w', 'p'),
{
    reveal_strlit("$schema");
    reveal_strlit("actions");
    reveal_strlit("altText");
    reveal_strlit("associatedInputs");
    reveal_strlit("backgroundColor");
    reveal_strlit("bleed");
    reveal_strlit("body");
    reveal_strlit("card");
    reveal_strlit("choices");
    reveal_strlit("color");
    reveal_strlit("columns");
    reveal_strlit("data");
    reveal_strlit("errorMessage");
    reveal_strlit("facts");
    reveal_strlit("fallbackText");
    reveal_strlit("fontType");
    reveal_strlit("height");
    reveal_strlit("highlight");
    reveal_strlit("horizontalAlignment");
    reveal_strlit("iconUrl");
    reveal_strlit("id");
    reveal_strlit("inlines");
    reveal_strlit("isEnabled");
    reveal_strlit("isMultiSelect");
    reveal_strlit("isMultiline");
    reveal_strlit("isRequired");
    reveal_strlit("isSubtle");
    reveal_strlit("isVisible");
    reveal_strlit("italic");
    reveal_strlit("items");
    reveal_strlit("label");
    reveal_strlit("lang");
    reveal_strlit("max");
    reveal_strlit("maxLength");
    reveal_strlit("maxLines");
    reveal_strlit("min");
    reveal_strlit("minHeight");
    reveal_strlit("mode");
    reveal_strlit("msteams");
    reveal_strlit("placeholder");
    reveal_strlit("regex");
    reveal_strlit("rtl");
    reveal_strlit("selectAction");
    reveal_strlit("separator");
    reveal_strlit("size");
    reveal_strlit("spacing");
    reveal_strlit("strikethrough");
    reveal_strlit("style");
    reveal_strlit("targetElements");
    reveal_strlit("text");
    reveal_strlit("title");
    reveal_strlit("tooltip");
    reveal_strlit("type");
    reveal_strlit("url");
    reveal_strlit("value");
    reveal_strlit("valueOff");
    reveal_strlit("valueOn");
    reveal_strlit("version");
    reveal_strlit("verticalContentAlignment");
    reveal_strlit("weight");
    reveal_strlit("width");
    reveal_strlit("wrap");
}

} // verus!
