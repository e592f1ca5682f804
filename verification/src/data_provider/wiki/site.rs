//! The configuration of the watched wiki site: the word lists that decide how
//! its wiki text is read.

use crate::text::slice_texts;
use vstd::prelude::*;

verus! {

/// Aliases of the category namespace.
pub const CATEGORY_NAMESPACES: [&'static str; 1] = [
    "category",
];

/// Names of the extension tags of the site.
pub const EXTENSION_TAGS: [&'static str; 68] = [
    "activityfeed",
    "bloglist",
    "categorytree",
    "ce",
    "charinsert",
    "chem",
    "choose",
    "comments",
    "coordinates",
    "discussions",
    "display_line",
    "display_map",
    "display_point",
    "display_points",
    "distance",
    "dpl",
    "dynamicpagelist",
    "fb:follow",
    "fb:like",
    "fb:like-box",
    "fb:page",
    "fb:share-button",
    "finddestination",
    "forum",
    "gallery",
    "geocode",
    "geodistance",
    "helper",
    "imagemap",
    "imap",
    "indicator",
    "infobox",
    "inputbox",
    "jwplayer",
    "loggedin",
    "loggedout",
    "mainpage-endcolumn",
    "mainpage-leftcolumn-start",
    "mainpage-rightcolumn-start",
    "maplib",
    "mapsdoc",
    "math",
    "metadesc",
    "mp3",
    "nowiki",
    "pageby",
    "pagetools",
    "poem",
    "poll",
    "pre",
    "randomimage",
    "ref",
    "references",
    "rhtml",
    "rss",
    "section",
    "source",
    "spotify",
    "staff",
    "syntaxhighlight",
    "tabber",
    "templatedata",
    "timeline",
    "twitter",
    "verbatim",
    "vote",
    "widget",
    "youtube",
];

/// Aliases of the file namespace.
pub const FILE_NAMESPACES: [&'static str; 2] = [
    "file",
    "image",
];

/// Magic words that can stand between two pairs of underscores.
pub const MAGIC_WORDS: [&'static str; 29] = [
    "APPROVEDREVS",
    "EXPECTUNUSEDCATEGORY",
    "FORCECATEGORYGALLERY",
    "FORCETOC",
    "HIDDENCAT",
    "HIDEFROMDRILLDOWN",
    "INDEX",
    "NEWSECTIONLINK",
    "NOCACHE",
    "NOCATEGORYEXHIBITION",
    "NOCATEGORYGALLERY",
    "NOCC",
    "NOCONTENTCONVERT",
    "NODEFAULTLINKS",
    "NOEDITSECTION",
    "NOFACTBOX",
    "NOGALLERY",
    "NOINDEX",
    "NONEWSECTIONLINK",
    "NOSHAREDHELP",
    "NOTC",
    "NOTITLE",
    "NOTITLECONVERT",
    "NOTOC",
    "NOWYSIWYG",
    "SHOWFACTBOX",
    "SHOWINDRILLDOWN",
    "STATICREDIRECT",
    "TOC",
];

/// Protocols that an external link can start with.
pub const PROTOCOLS: [&'static str; 28] = [
    "//",
    "bitcoin:",
    "ftp://",
    "ftps://",
    "geo:",
    "git://",
    "gopher://",
    "http://",
    "https://",
    "irc://",
    "ircs://",
    "magnet:",
    "mailto:",
    "mms://",
    "news:",
    "nntp://",
    "redis://",
    "sftp://",
    "sip:",
    "sips:",
    "sms:",
    "ssh://",
    "svn://",
    "tel:",
    "telnet://",
    "urn:",
    "worldwind://",
    "xmpp:",
];

/// Magic words that introduce a redirect.
pub const REDIRECT_MAGIC_WORDS: [&'static str; 1] = [
    "REDIRECT",
];

/// Characters that can continue a link after its closing brackets.
pub const LINK_TRAIL: &'static str = "ABCDEFGHIJKLMNOPQRSTUVWXYZabcdefghijklmnopqrstuvwxyz";

/// The word lists of the site, in the order in which a parser configuration
/// keeps them: category namespaces, extension tags, file namespaces, the link
/// trail as a single word, magic words, protocols, redirect magic words.
pub open spec fn site_words() -> Seq<Seq<Seq<char>>> {
    seq![
        slice_texts(CATEGORY_NAMESPACES@),
        slice_texts(EXTENSION_TAGS@),
        slice_texts(FILE_NAMESPACES@),
        seq![LINK_TRAIL@],
        slice_texts(MAGIC_WORDS@),
        slice_texts(PROTOCOLS@),
        slice_texts(REDIRECT_MAGIC_WORDS@),
    ]
}

} // verus!
