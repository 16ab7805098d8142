//! The entities that `get` commands return, and how each is read from JSON.
//!
//! A member of an entity is there only where the `get` asked for it by a
//! flag: absent optional members read as `None`, absent lists as empty.
use vstd::prelude::*;

use crate::decode::{
    lemma_list_unique, lemma_opt_unique, lemma_req_unique, lemma_zero_unique, list_decodable,
    list_decodes, list_member, opt_alike, opt_decodable, opt_decodes, opt_member, req_decodable,
    req_decodes, req_member, seq_alike, zero_decodable, zero_decodes, zero_member, Decimal,
    FromJson,
};
use crate::json::{lookup, str_of, uint_of, Json};

verus! {

/// Links of a visual novel to other sites.
#[derive(Clone, Debug, PartialEq)]
pub struct VnLinks {
    /// Its Wikidata identifier.
    pub wikidata: Option<String>,
    /// The name part of its URL on renai.us.
    pub renai: Option<String>,
}

impl FromJson for VnLinks {
    open spec fn decodable(j: Json) -> bool {
        &&& j is Object
        &&& opt_decodable::<String>(lookup(j, "wikidata"@))
        &&& opt_decodable::<String>(lookup(j, "renai"@))
    }

    open spec fn decodes(j: Json, v: VnLinks) -> bool {
        &&& j is Object
        &&& opt_decodes(lookup(j, "wikidata"@), v.wikidata)
        &&& opt_decodes(lookup(j, "renai"@), v.renai)
    }

    open spec fn alike(a: VnLinks, b: VnLinks) -> bool {
        &&& opt_alike(a.wikidata, b.wikidata)
        &&& opt_alike(a.renai, b.renai)
    }

    proof fn lemma_decodes_unique(j: Json, a: VnLinks, b: VnLinks) {
        lemma_opt_unique(lookup(j, "wikidata"@), a.wikidata, b.wikidata);
        lemma_opt_unique(lookup(j, "renai"@), a.renai, b.renai);
    }

    fn from_json(j: &Json) -> (r: Option<VnLinks>) {
        if !j.is_object() {
            return None;
        }
        let wikidata = opt_member::<String>(j, "wikidata")?;
        let renai = opt_member::<String>(j, "renai")?;
        Some(VnLinks { wikidata, renai })
    }
}

/// An anime made after a visual novel.
#[derive(Clone, Debug, PartialEq)]
pub struct VnAnime {
    /// Its AniDB identifier.
    pub id: u64,
    /// Its AnimeNewsNetwork identifier.
    pub ann_id: Option<u64>,
    /// Its AnimeNfo identifier.
    pub nfo_id: Option<u64>,
    /// Its title in romaji.
    pub title_romaji: Option<String>,
    /// Its title in kanji.
    pub title_kanji: Option<String>,
    /// The year it aired.
    pub year: Option<u16>,
    /// Its type.
    pub kind: Option<String>,
}

impl FromJson for VnAnime {
    open spec fn decodable(j: Json) -> bool {
        &&& j is Object
        &&& req_decodable::<u64>(lookup(j, "id"@))
        &&& opt_decodable::<u64>(lookup(j, "ann_id"@))
        &&& opt_decodable::<u64>(lookup(j, "nfo_id"@))
        &&& opt_decodable::<String>(lookup(j, "title_romaji"@))
        &&& opt_decodable::<String>(lookup(j, "title_kanji"@))
        &&& opt_decodable::<u16>(lookup(j, "year"@))
        &&& opt_decodable::<String>(lookup(j, "type"@))
    }

    open spec fn decodes(j: Json, v: VnAnime) -> bool {
        &&& j is Object
        &&& req_decodes(lookup(j, "id"@), v.id)
        &&& opt_decodes(lookup(j, "ann_id"@), v.ann_id)
        &&& opt_decodes(lookup(j, "nfo_id"@), v.nfo_id)
        &&& opt_decodes(lookup(j, "title_romaji"@), v.title_romaji)
        &&& opt_decodes(lookup(j, "title_kanji"@), v.title_kanji)
        &&& opt_decodes(lookup(j, "year"@), v.year)
        &&& opt_decodes(lookup(j, "type"@), v.kind)
    }

    open spec fn alike(a: VnAnime, b: VnAnime) -> bool {
        &&& u64::alike(a.id, b.id)
        &&& opt_alike(a.ann_id, b.ann_id)
        &&& opt_alike(a.nfo_id, b.nfo_id)
        &&& opt_alike(a.title_romaji, b.title_romaji)
        &&& opt_alike(a.title_kanji, b.title_kanji)
        &&& opt_alike(a.year, b.year)
        &&& opt_alike(a.kind, b.kind)
    }

    proof fn lemma_decodes_unique(j: Json, a: VnAnime, b: VnAnime) {
        lemma_req_unique(lookup(j, "id"@), a.id, b.id);
        lemma_opt_unique(lookup(j, "ann_id"@), a.ann_id, b.ann_id);
        lemma_opt_unique(lookup(j, "nfo_id"@), a.nfo_id, b.nfo_id);
        lemma_opt_unique(lookup(j, "title_romaji"@), a.title_romaji, b.title_romaji);
        lemma_opt_unique(lookup(j, "title_kanji"@), a.title_kanji, b.title_kanji);
        lemma_opt_unique(lookup(j, "year"@), a.year, b.year);
        lemma_opt_unique(lookup(j, "type"@), a.kind, b.kind);
    }

    fn from_json(j: &Json) -> (r: Option<VnAnime>) {
        if !j.is_object() {
            return None;
        }
        let id = req_member::<u64>(j, "id")?;
        let ann_id = opt_member::<u64>(j, "ann_id")?;
        let nfo_id = opt_member::<u64>(j, "nfo_id")?;
        let title_romaji = opt_member::<String>(j, "title_romaji")?;
        let title_kanji = opt_member::<String>(j, "title_kanji")?;
        let year = opt_member::<u16>(j, "year")?;
        let kind = opt_member::<String>(j, "type")?;
        Some(VnAnime { id, ann_id, nfo_id, title_romaji, title_kanji, year, kind })
    }
}

/// A visual novel related to another.
#[derive(Clone, Debug, PartialEq)]
pub struct VnRelation {
    /// Its identifier.
    pub id: u64,
    /// How it is related.
    pub relation: String,
    /// Its title in romaji.
    pub title: String,
    /// Its title in the original script.
    pub original: Option<String>,
    /// Whether the relation is official.
    pub official: bool,
}

impl FromJson for VnRelation {
    open spec fn decodable(j: Json) -> bool {
        &&& j is Object
        &&& req_decodable::<u64>(lookup(j, "id"@))
        &&& req_decodable::<String>(lookup(j, "relation"@))
        &&& req_decodable::<String>(lookup(j, "title"@))
        &&& opt_decodable::<String>(lookup(j, "original"@))
        &&& req_decodable::<bool>(lookup(j, "official"@))
    }

    open spec fn decodes(j: Json, v: VnRelation) -> bool {
        &&& j is Object
        &&& req_decodes(lookup(j, "id"@), v.id)
        &&& req_decodes(lookup(j, "relation"@), v.relation)
        &&& req_decodes(lookup(j, "title"@), v.title)
        &&& opt_decodes(lookup(j, "original"@), v.original)
        &&& req_decodes(lookup(j, "official"@), v.official)
    }

    open spec fn alike(a: VnRelation, b: VnRelation) -> bool {
        &&& u64::alike(a.id, b.id)
        &&& String::alike(a.relation, b.relation)
        &&& String::alike(a.title, b.title)
        &&& opt_alike(a.original, b.original)
        &&& bool::alike(a.official, b.official)
    }

    proof fn lemma_decodes_unique(j: Json, a: VnRelation, b: VnRelation) {
        lemma_req_unique(lookup(j, "id"@), a.id, b.id);
        lemma_req_unique(lookup(j, "relation"@), a.relation, b.relation);
        lemma_req_unique(lookup(j, "title"@), a.title, b.title);
        lemma_opt_unique(lookup(j, "original"@), a.original, b.original);
        lemma_req_unique(lookup(j, "official"@), a.official, b.official);
    }

    fn from_json(j: &Json) -> (r: Option<VnRelation>) {
        if !j.is_object() {
            return None;
        }
        let id = req_member::<u64>(j, "id")?;
        let relation = req_member::<String>(j, "relation")?;
        let title = req_member::<String>(j, "title")?;
        let original = opt_member::<String>(j, "original")?;
        let official = req_member::<bool>(j, "official")?;
        Some(VnRelation { id, relation, title, original, official })
    }
}

/// A tag of a visual novel.
#[derive(Clone, Debug, PartialEq)]
pub struct VnTag {
    /// The tag's identifier.
    pub id: u64,
    /// Its score, from 0 to 3.
    pub score: Decimal,
    /// How much it spoils: 0 none, 1 minor, 2 major.
    pub spoiler: u8,
}

impl FromJson for VnTag {
    open spec fn decodable(j: Json) -> bool {
        &&& j is Object
        &&& req_decodable::<u64>(lookup(j, "id"@))
        &&& req_decodable::<Decimal>(lookup(j, "score"@))
        &&& req_decodable::<u8>(lookup(j, "spoiler level"@))
    }

    open spec fn decodes(j: Json, v: VnTag) -> bool {
        &&& j is Object
        &&& req_decodes(lookup(j, "id"@), v.id)
        &&& req_decodes(lookup(j, "score"@), v.score)
        &&& req_decodes(lookup(j, "spoiler level"@), v.spoiler)
    }

    open spec fn alike(a: VnTag, b: VnTag) -> bool {
        &&& u64::alike(a.id, b.id)
        &&& Decimal::alike(a.score, b.score)
        &&& u8::alike(a.spoiler, b.spoiler)
    }

    proof fn lemma_decodes_unique(j: Json, a: VnTag, b: VnTag) {
        lemma_req_unique(lookup(j, "id"@), a.id, b.id);
        lemma_req_unique(lookup(j, "score"@), a.score, b.score);
        lemma_req_unique(lookup(j, "spoiler level"@), a.spoiler, b.spoiler);
    }

    fn from_json(j: &Json) -> (r: Option<VnTag>) {
        if !j.is_object() {
            return None;
        }
        let id = req_member::<u64>(j, "id")?;
        let score = req_member::<Decimal>(j, "score")?;
        let spoiler = req_member::<u8>(j, "spoiler level")?;
        Some(VnTag { id, score, spoiler })
    }
}

/// How an image was flagged by users.
#[derive(Clone, Debug, PartialEq)]
pub struct VnImageFlags {
    /// The number of votes.
    pub vote_count: u64,
    /// The sexual score, from 0 (safe) to 2 (explicit).
    pub sexual_avg: Option<Decimal>,
    /// The violence score, from 0 (tame) to 2 (brutal).
    pub violence_avg: Option<Decimal>,
}

impl FromJson for VnImageFlags {
    open spec fn decodable(j: Json) -> bool {
        &&& j is Object
        &&& req_decodable::<u64>(lookup(j, "votecount"@))
        &&& opt_decodable::<Decimal>(lookup(j, "sexual_avg"@))
        &&& opt_decodable::<Decimal>(lookup(j, "violence_avg"@))
    }

    open spec fn decodes(j: Json, v: VnImageFlags) -> bool {
        &&& j is Object
        &&& req_decodes(lookup(j, "votecount"@), v.vote_count)
        &&& opt_decodes(lookup(j, "sexual_avg"@), v.sexual_avg)
        &&& opt_decodes(lookup(j, "violence_avg"@), v.violence_avg)
    }

    open spec fn alike(a: VnImageFlags, b: VnImageFlags) -> bool {
        &&& u64::alike(a.vote_count, b.vote_count)
        &&& opt_alike(a.sexual_avg, b.sexual_avg)
        &&& opt_alike(a.violence_avg, b.violence_avg)
    }

    proof fn lemma_decodes_unique(j: Json, a: VnImageFlags, b: VnImageFlags) {
        lemma_req_unique(lookup(j, "votecount"@), a.vote_count, b.vote_count);
        lemma_opt_unique(lookup(j, "sexual_avg"@), a.sexual_avg, b.sexual_avg);
        lemma_opt_unique(lookup(j, "violence_avg"@), a.violence_avg, b.violence_avg);
    }

    fn from_json(j: &Json) -> (r: Option<VnImageFlags>) {
        if !j.is_object() {
            return None;
        }
        let vote_count = req_member::<u64>(j, "votecount")?;
        let sexual_avg = opt_member::<Decimal>(j, "sexual_avg")?;
        let violence_avg = opt_member::<Decimal>(j, "violence_avg")?;
        Some(VnImageFlags { vote_count, sexual_avg, violence_avg })
    }
}

/// A screenshot of a visual novel.
#[derive(Clone, Debug, PartialEq)]
pub struct VnScreen {
    /// Its URL.
    pub image: String,
    /// The release it was taken from.
    pub rid: u64,
    /// How it was flagged.
    pub flagging: Option<VnImageFlags>,
    /// Its height in pixels.
    pub height: u16,
    /// Its width in pixels.
    pub width: u16,
}

impl FromJson for VnScreen {
    open spec fn decodable(j: Json) -> bool {
        &&& j is Object
        &&& req_decodable::<String>(lookup(j, "image"@))
        &&& req_decodable::<u64>(lookup(j, "rid"@))
        &&& opt_decodable::<VnImageFlags>(lookup(j, "flagging"@))
        &&& req_decodable::<u16>(lookup(j, "height"@))
        &&& req_decodable::<u16>(lookup(j, "width"@))
    }

    open spec fn decodes(j: Json, v: VnScreen) -> bool {
        &&& j is Object
        &&& req_decodes(lookup(j, "image"@), v.image)
        &&& req_decodes(lookup(j, "rid"@), v.rid)
        &&& opt_decodes(lookup(j, "flagging"@), v.flagging)
        &&& req_decodes(lookup(j, "height"@), v.height)
        &&& req_decodes(lookup(j, "width"@), v.width)
    }

    open spec fn alike(a: VnScreen, b: VnScreen) -> bool {
        &&& String::alike(a.image, b.image)
        &&& u64::alike(a.rid, b.rid)
        &&& opt_alike(a.flagging, b.flagging)
        &&& u16::alike(a.height, b.height)
        &&& u16::alike(a.width, b.width)
    }

    proof fn lemma_decodes_unique(j: Json, a: VnScreen, b: VnScreen) {
        lemma_req_unique(lookup(j, "image"@), a.image, b.image);
        lemma_req_unique(lookup(j, "rid"@), a.rid, b.rid);
        lemma_opt_unique(lookup(j, "flagging"@), a.flagging, b.flagging);
        lemma_req_unique(lookup(j, "height"@), a.height, b.height);
        lemma_req_unique(lookup(j, "width"@), a.width, b.width);
    }

    fn from_json(j: &Json) -> (r: Option<VnScreen>) {
        if !j.is_object() {
            return None;
        }
        let image = req_member::<String>(j, "image")?;
        let rid = req_member::<u64>(j, "rid")?;
        let flagging = opt_member::<VnImageFlags>(j, "flagging")?;
        let height = req_member::<u16>(j, "height")?;
        let width = req_member::<u16>(j, "width")?;
        Some(VnScreen { image, rid, flagging, height, width })
    }
}

/// A member of the staff of a visual novel.
#[derive(Clone, Debug, PartialEq)]
pub struct VnStaff {
    /// The staff's identifier.
    pub id: u64,
    /// The identifier of the alias credited.
    pub alias: u64,
    /// The name.
    pub name: String,
    /// The name in the original script.
    pub original: Option<String>,
    /// The role.
    pub role: String,
    /// A note.
    pub note: Option<String>,
}

impl FromJson for VnStaff {
    open spec fn decodable(j: Json) -> bool {
        &&& j is Object
        &&& req_decodable::<u64>(lookup(j, "sid"@))
        &&& req_decodable::<u64>(lookup(j, "aid"@))
        &&& req_decodable::<String>(lookup(j, "name"@))
        &&& opt_decodable::<String>(lookup(j, "original"@))
        &&& req_decodable::<String>(lookup(j, "role"@))
        &&& opt_decodable::<String>(lookup(j, "note"@))
    }

    open spec fn decodes(j: Json, v: VnStaff) -> bool {
        &&& j is Object
        &&& req_decodes(lookup(j, "sid"@), v.id)
        &&& req_decodes(lookup(j, "aid"@), v.alias)
        &&& req_decodes(lookup(j, "name"@), v.name)
        &&& opt_decodes(lookup(j, "original"@), v.original)
        &&& req_decodes(lookup(j, "role"@), v.role)
        &&& opt_decodes(lookup(j, "note"@), v.note)
    }

    open spec fn alike(a: VnStaff, b: VnStaff) -> bool {
        &&& u64::alike(a.id, b.id)
        &&& u64::alike(a.alias, b.alias)
        &&& String::alike(a.name, b.name)
        &&& opt_alike(a.original, b.original)
        &&& String::alike(a.role, b.role)
        &&& opt_alike(a.note, b.note)
    }

    proof fn lemma_decodes_unique(j: Json, a: VnStaff, b: VnStaff) {
        lemma_req_unique(lookup(j, "sid"@), a.id, b.id);
        lemma_req_unique(lookup(j, "aid"@), a.alias, b.alias);
        lemma_req_unique(lookup(j, "name"@), a.name, b.name);
        lemma_opt_unique(lookup(j, "original"@), a.original, b.original);
        lemma_req_unique(lookup(j, "role"@), a.role, b.role);
        lemma_opt_unique(lookup(j, "note"@), a.note, b.note);
    }

    fn from_json(j: &Json) -> (r: Option<VnStaff>) {
        if !j.is_object() {
            return None;
        }
        let id = req_member::<u64>(j, "sid")?;
        let alias = req_member::<u64>(j, "aid")?;
        let name = req_member::<String>(j, "name")?;
        let original = opt_member::<String>(j, "original")?;
        let role = req_member::<String>(j, "role")?;
        let note = opt_member::<String>(j, "note")?;
        Some(VnStaff { id, alias, name, original, role, note })
    }
}

/// A visual novel, as `get vn` sends it.
///
/// Members other than `id` come with the flag that asks for them.
#[derive(Clone, Debug, PartialEq)]
pub struct Vn {
    /// Its identifier.
    pub id: u64,
    /// Its main title (`basic`).
    pub title: Option<String>,
    /// Its title in the original language (`basic`).
    pub original: Option<String>,
    /// The date of its first release (`basic`).
    pub released: Option<String>,
    /// The languages it is available in (`basic`).
    pub languages: Vec<String>,
    /// The languages of its first release (`basic`).
    pub orig_lang: Vec<String>,
    /// The platforms it is available on (`basic`).
    pub platforms: Vec<String>,
    /// Its aliases, one per line (`details`).
    pub aliases: Option<String>,
    /// Its length, from 1 to 5 (`details`).
    pub length: Option<u8>,
    /// Its description (`details`).
    pub description: Option<String>,
    /// Its links (`details`).
    pub links: Option<VnLinks>,
    /// The URL of its image (`details`).
    pub image: Option<String>,
    /// How its image was flagged (`details`).
    pub image_flagging: Option<VnImageFlags>,
    /// Anime made after it (`anime`).
    pub anime: Vec<VnAnime>,
    /// Related visual novels (`relations`).
    pub relations: Vec<VnRelation>,
    /// Its tags (`tags`).
    pub tags: Vec<VnTag>,
    /// Its popularity, from 0 to 100 (`stats`).
    pub popularity: Option<Decimal>,
    /// Its rating, from 1 to 10 (`stats`).
    pub rating: Option<Decimal>,
    /// The number of votes (`stats`).
    pub votecount: Option<u64>,
    /// Its screenshots (`screens`).
    pub screens: Vec<VnScreen>,
    /// Its staff (`staff`).
    pub staff: Vec<VnStaff>,
}

impl FromJson for Vn {
    open spec fn decodable(j: Json) -> bool {
        &&& j is Object
        &&& req_decodable::<u64>(lookup(j, "id"@))
        &&& opt_decodable::<String>(lookup(j, "title"@))
        &&& opt_decodable::<String>(lookup(j, "original"@))
        &&& opt_decodable::<String>(lookup(j, "released"@))
        &&& list_decodable::<String>(lookup(j, "languages"@))
        &&& list_decodable::<String>(lookup(j, "orig_lang"@))
        &&& list_decodable::<String>(lookup(j, "platforms"@))
        &&& opt_decodable::<String>(lookup(j, "aliases"@))
        &&& opt_decodable::<u8>(lookup(j, "length"@))
        &&& opt_decodable::<String>(lookup(j, "description"@))
        &&& opt_decodable::<VnLinks>(lookup(j, "links"@))
        &&& opt_decodable::<String>(lookup(j, "image"@))
        &&& opt_decodable::<VnImageFlags>(lookup(j, "image_flagging"@))
        &&& list_decodable::<VnAnime>(lookup(j, "anime"@))
        &&& list_decodable::<VnRelation>(lookup(j, "relations"@))
        &&& list_decodable::<VnTag>(lookup(j, "tags"@))
        &&& opt_decodable::<Decimal>(lookup(j, "popularity"@))
        &&& opt_decodable::<Decimal>(lookup(j, "rating"@))
        &&& opt_decodable::<u64>(lookup(j, "votecount"@))
        &&& list_decodable::<VnScreen>(lookup(j, "screens"@))
        &&& list_decodable::<VnStaff>(lookup(j, "staff"@))
    }

    open spec fn decodes(j: Json, v: Vn) -> bool {
        &&& j is Object
        &&& req_decodes(lookup(j, "id"@), v.id)
        &&& opt_decodes(lookup(j, "title"@), v.title)
        &&& opt_decodes(lookup(j, "original"@), v.original)
        &&& opt_decodes(lookup(j, "released"@), v.released)
        &&& list_decodes(lookup(j, "languages"@), v.languages@)
        &&& list_decodes(lookup(j, "orig_lang"@), v.orig_lang@)
        &&& list_decodes(lookup(j, "platforms"@), v.platforms@)
        &&& opt_decodes(lookup(j, "aliases"@), v.aliases)
        &&& opt_decodes(lookup(j, "length"@), v.length)
        &&& opt_decodes(lookup(j, "description"@), v.description)
        &&& opt_decodes(lookup(j, "links"@), v.links)
        &&& opt_decodes(lookup(j, "image"@), v.image)
        &&& opt_decodes(lookup(j, "image_flagging"@), v.image_flagging)
        &&& list_decodes(lookup(j, "anime"@), v.anime@)
        &&& list_decodes(lookup(j, "relations"@), v.relations@)
        &&& list_decodes(lookup(j, "tags"@), v.tags@)
        &&& opt_decodes(lookup(j, "popularity"@), v.popularity)
        &&& opt_decodes(lookup(j, "rating"@), v.rating)
        &&& opt_decodes(lookup(j, "votecount"@), v.votecount)
        &&& list_decodes(lookup(j, "screens"@), v.screens@)
        &&& list_decodes(lookup(j, "staff"@), v.staff@)
    }

    open spec fn alike(a: Vn, b: Vn) -> bool {
        &&& u64::alike(a.id, b.id)
        &&& opt_alike(a.title, b.title)
        &&& opt_alike(a.original, b.original)
        &&& opt_alike(a.released, b.released)
        &&& seq_alike(a.languages@, b.languages@)
        &&& seq_alike(a.orig_lang@, b.orig_lang@)
        &&& seq_alike(a.platforms@, b.platforms@)
        &&& opt_alike(a.aliases, b.aliases)
        &&& opt_alike(a.length, b.length)
        &&& opt_alike(a.description, b.description)
        &&& opt_alike(a.links, b.links)
        &&& opt_alike(a.image, b.image)
        &&& opt_alike(a.image_flagging, b.image_flagging)
        &&& seq_alike(a.anime@, b.anime@)
        &&& seq_alike(a.relations@, b.relations@)
        &&& seq_alike(a.tags@, b.tags@)
        &&& opt_alike(a.popularity, b.popularity)
        &&& opt_alike(a.rating, b.rating)
        &&& opt_alike(a.votecount, b.votecount)
        &&& seq_alike(a.screens@, b.screens@)
        &&& seq_alike(a.staff@, b.staff@)
    }

    proof fn lemma_decodes_unique(j: Json, a: Vn, b: Vn) {
        lemma_req_unique(lookup(j, "id"@), a.id, b.id);
        lemma_opt_unique(lookup(j, "title"@), a.title, b.title);
        lemma_opt_unique(lookup(j, "original"@), a.original, b.original);
        lemma_opt_unique(lookup(j, "released"@), a.released, b.released);
        lemma_list_unique(lookup(j, "languages"@), a.languages@, b.languages@);
        lemma_list_unique(lookup(j, "orig_lang"@), a.orig_lang@, b.orig_lang@);
        lemma_list_unique(lookup(j, "platforms"@), a.platforms@, b.platforms@);
        lemma_opt_unique(lookup(j, "aliases"@), a.aliases, b.aliases);
        lemma_opt_unique(lookup(j, "length"@), a.length, b.length);
        lemma_opt_unique(lookup(j, "description"@), a.description, b.description);
        lemma_opt_unique(lookup(j, "links"@), a.links, b.links);
        lemma_opt_unique(lookup(j, "image"@), a.image, b.image);
        lemma_opt_unique(lookup(j, "image_flagging"@), a.image_flagging, b.image_flagging);
        lemma_list_unique(lookup(j, "anime"@), a.anime@, b.anime@);
        lemma_list_unique(lookup(j, "relations"@), a.relations@, b.relations@);
        lemma_list_unique(lookup(j, "tags"@), a.tags@, b.tags@);
        lemma_opt_unique(lookup(j, "popularity"@), a.popularity, b.popularity);
        lemma_opt_unique(lookup(j, "rating"@), a.rating, b.rating);
        lemma_opt_unique(lookup(j, "votecount"@), a.votecount, b.votecount);
        lemma_list_unique(lookup(j, "screens"@), a.screens@, b.screens@);
        lemma_list_unique(lookup(j, "staff"@), a.staff@, b.staff@);
    }

    fn from_json(j: &Json) -> (r: Option<Vn>) {
        if !j.is_object() {
            return None;
        }
        let id = req_member::<u64>(j, "id")?;
        let title = opt_member::<String>(j, "title")?;
        let original = opt_member::<String>(j, "original")?;
        let released = opt_member::<String>(j, "released")?;
        let languages = list_member::<String>(j, "languages")?;
        let orig_lang = list_member::<String>(j, "orig_lang")?;
        let platforms = list_member::<String>(j, "platforms")?;
        let aliases = opt_member::<String>(j, "aliases")?;
        let length = opt_member::<u8>(j, "length")?;
        let description = opt_member::<String>(j, "description")?;
        let links = opt_member::<VnLinks>(j, "links")?;
        let image = opt_member::<String>(j, "image")?;
        let image_flagging = opt_member::<VnImageFlags>(j, "image_flagging")?;
        let anime = list_member::<VnAnime>(j, "anime")?;
        let relations = list_member::<VnRelation>(j, "relations")?;
        let tags = list_member::<VnTag>(j, "tags")?;
        let popularity = opt_member::<Decimal>(j, "popularity")?;
        let rating = opt_member::<Decimal>(j, "rating")?;
        let votecount = opt_member::<u64>(j, "votecount")?;
        let screens = list_member::<VnScreen>(j, "screens")?;
        let staff = list_member::<VnStaff>(j, "staff")?;
        Some(
            Vn {
                id,
                title,
                original,
                released,
                languages,
                orig_lang,
                platforms,
                aliases,
                length,
                description,
                links,
                image,
                image_flagging,
                anime,
                relations,
                tags,
                popularity,
                rating,
                votecount,
                screens,
                staff,
            },
        )
    }
}

/// A medium a release comes on.
#[derive(Clone, Debug, PartialEq)]
pub struct ReleaseMedia {
    /// Its name.
    pub medium: String,
    /// How many of it.
    pub quantity: Option<u32>,
}

impl FromJson for ReleaseMedia {
    open spec fn decodable(j: Json) -> bool {
        &&& j is Object
        &&& req_decodable::<String>(lookup(j, "medium"@))
        &&& opt_decodable::<u32>(lookup(j, "qty"@))
    }

    open spec fn decodes(j: Json, v: ReleaseMedia) -> bool {
        &&& j is Object
        &&& req_decodes(lookup(j, "medium"@), v.medium)
        &&& opt_decodes(lookup(j, "qty"@), v.quantity)
    }

    open spec fn alike(a: ReleaseMedia, b: ReleaseMedia) -> bool {
        &&& String::alike(a.medium, b.medium)
        &&& opt_alike(a.quantity, b.quantity)
    }

    proof fn lemma_decodes_unique(j: Json, a: ReleaseMedia, b: ReleaseMedia) {
        lemma_req_unique(lookup(j, "medium"@), a.medium, b.medium);
        lemma_opt_unique(lookup(j, "qty"@), a.quantity, b.quantity);
    }

    fn from_json(j: &Json) -> (r: Option<ReleaseMedia>) {
        if !j.is_object() {
            return None;
        }
        let medium = req_member::<String>(j, "medium")?;
        let quantity = opt_member::<u32>(j, "qty")?;
        Some(ReleaseMedia { medium, quantity })
    }
}

/// A visual novel a release belongs to.
#[derive(Clone, Debug, PartialEq)]
pub struct ReleaseVN {
    /// Its identifier.
    pub id: u64,
    /// Its title.
    pub title: String,
    /// Its title in the original language.
    pub original: Option<String>,
}

impl FromJson for ReleaseVN {
    open spec fn decodable(j: Json) -> bool {
        &&& j is Object
        &&& req_decodable::<u64>(lookup(j, "id"@))
        &&& req_decodable::<String>(lookup(j, "title"@))
        &&& opt_decodable::<String>(lookup(j, "original"@))
    }

    open spec fn decodes(j: Json, v: ReleaseVN) -> bool {
        &&& j is Object
        &&& req_decodes(lookup(j, "id"@), v.id)
        &&& req_decodes(lookup(j, "title"@), v.title)
        &&& opt_decodes(lookup(j, "original"@), v.original)
    }

    open spec fn alike(a: ReleaseVN, b: ReleaseVN) -> bool {
        &&& u64::alike(a.id, b.id)
        &&& String::alike(a.title, b.title)
        &&& opt_alike(a.original, b.original)
    }

    proof fn lemma_decodes_unique(j: Json, a: ReleaseVN, b: ReleaseVN) {
        lemma_req_unique(lookup(j, "id"@), a.id, b.id);
        lemma_req_unique(lookup(j, "title"@), a.title, b.title);
        lemma_opt_unique(lookup(j, "original"@), a.original, b.original);
    }

    fn from_json(j: &Json) -> (r: Option<ReleaseVN>) {
        if !j.is_object() {
            return None;
        }
        let id = req_member::<u64>(j, "id")?;
        let title = req_member::<String>(j, "title")?;
        let original = opt_member::<String>(j, "original")?;
        Some(ReleaseVN { id, title, original })
    }
}

/// A producer of a release.
#[derive(Clone, Debug, PartialEq)]
pub struct ReleaseProducer {
    /// Its identifier.
    pub id: u64,
    /// Whether it developed the release.
    pub developer: bool,
    /// Whether it published the release.
    pub publisher: bool,
    /// Its name in romaji.
    pub name: String,
    /// Its name in the original language.
    pub original: Option<String>,
    /// Its type.
    pub kind: String,
}

impl FromJson for ReleaseProducer {
    open spec fn decodable(j: Json) -> bool {
        &&& j is Object
        &&& req_decodable::<u64>(lookup(j, "id"@))
        &&& req_decodable::<bool>(lookup(j, "developer"@))
        &&& req_decodable::<bool>(lookup(j, "publisher"@))
        &&& req_decodable::<String>(lookup(j, "name"@))
        &&& opt_decodable::<String>(lookup(j, "original"@))
        &&& req_decodable::<String>(lookup(j, "type"@))
    }

    open spec fn decodes(j: Json, v: ReleaseProducer) -> bool {
        &&& j is Object
        &&& req_decodes(lookup(j, "id"@), v.id)
        &&& req_decodes(lookup(j, "developer"@), v.developer)
        &&& req_decodes(lookup(j, "publisher"@), v.publisher)
        &&& req_decodes(lookup(j, "name"@), v.name)
        &&& opt_decodes(lookup(j, "original"@), v.original)
        &&& req_decodes(lookup(j, "type"@), v.kind)
    }

    open spec fn alike(a: ReleaseProducer, b: ReleaseProducer) -> bool {
        &&& u64::alike(a.id, b.id)
        &&& bool::alike(a.developer, b.developer)
        &&& bool::alike(a.publisher, b.publisher)
        &&& String::alike(a.name, b.name)
        &&& opt_alike(a.original, b.original)
        &&& String::alike(a.kind, b.kind)
    }

    proof fn lemma_decodes_unique(j: Json, a: ReleaseProducer, b: ReleaseProducer) {
        lemma_req_unique(lookup(j, "id"@), a.id, b.id);
        lemma_req_unique(lookup(j, "developer"@), a.developer, b.developer);
        lemma_req_unique(lookup(j, "publisher"@), a.publisher, b.publisher);
        lemma_req_unique(lookup(j, "name"@), a.name, b.name);
        lemma_opt_unique(lookup(j, "original"@), a.original, b.original);
        lemma_req_unique(lookup(j, "type"@), a.kind, b.kind);
    }

    fn from_json(j: &Json) -> (r: Option<ReleaseProducer>) {
        if !j.is_object() {
            return None;
        }
        let id = req_member::<u64>(j, "id")?;
        let developer = req_member::<bool>(j, "developer")?;
        let publisher = req_member::<bool>(j, "publisher")?;
        let name = req_member::<String>(j, "name")?;
        let original = opt_member::<String>(j, "original")?;
        let kind = req_member::<String>(j, "type")?;
        Some(ReleaseProducer { id, developer, publisher, name, original, kind })
    }
}

/// A release, as `get release` sends it.
///
/// Members other than `id` come with the flag that asks for them.
#[derive(Clone, Debug, PartialEq)]
pub struct Release {
    /// Its identifier.
    pub id: u64,
    /// Its main title (`basic`).
    pub title: Option<String>,
    /// Its title in the original language (`basic`).
    pub original: Option<String>,
    /// Its date (`basic`).
    pub released: Option<String>,
    /// `complete`, `partial` or `trial` (`basic`).
    pub kind: Option<String>,
    /// Whether it is a patch (`basic`).
    pub patch: Option<bool>,
    /// Whether it is freeware (`basic`).
    pub freeware: Option<bool>,
    /// Whether it is a doujin release (`basic`).
    pub doujin: Option<bool>,
    /// Its languages (`basic`).
    pub languages: Vec<String>,
    /// Its website (`details`).
    pub website: Option<String>,
    /// Notes (`details`).
    pub notes: Option<String>,
    /// Its age rating; 0 is for all ages (`details`).
    pub age: Option<u8>,
    /// Its JAN/UPC/EAN code (`details`).
    pub code: Option<String>,
    /// Its catalogue number (`details`).
    pub catalog: Option<String>,
    /// Its platforms (`details`).
    pub platforms: Vec<String>,
    /// Its media (`details`).
    pub media: Vec<ReleaseMedia>,
    /// Its resolution (`details`).
    pub resolution: Option<String>,
    /// 1 not voiced, 2 erotic scenes only, 3 partially, 4 fully (`details`).
    pub voiced: Option<u8>,
    /// Its animation, of the story and of erotic scenes (`details`).
    pub animation: Option<(u8, u8)>,
    /// Its visual novels (`vn`).
    pub vn: Vec<ReleaseVN>,
    /// Its producers (`producers`).
    pub producers: Vec<ReleaseProducer>,
}

impl FromJson for Release {
    open spec fn decodable(j: Json) -> bool {
        &&& j is Object
        &&& req_decodable::<u64>(lookup(j, "id"@))
        &&& opt_decodable::<String>(lookup(j, "title"@))
        &&& opt_decodable::<String>(lookup(j, "original"@))
        &&& opt_decodable::<String>(lookup(j, "released"@))
        &&& opt_decodable::<String>(lookup(j, "type"@))
        &&& opt_decodable::<bool>(lookup(j, "patch"@))
        &&& opt_decodable::<bool>(lookup(j, "freeware"@))
        &&& opt_decodable::<bool>(lookup(j, "doujin"@))
        &&& list_decodable::<String>(lookup(j, "languages"@))
        &&& opt_decodable::<String>(lookup(j, "website"@))
        &&& opt_decodable::<String>(lookup(j, "notes"@))
        &&& opt_decodable::<u8>(lookup(j, "minage"@))
        &&& opt_decodable::<String>(lookup(j, "gtin"@))
        &&& opt_decodable::<String>(lookup(j, "catalog"@))
        &&& list_decodable::<String>(lookup(j, "platforms"@))
        &&& list_decodable::<ReleaseMedia>(lookup(j, "media"@))
        &&& opt_decodable::<String>(lookup(j, "resolution"@))
        &&& opt_decodable::<u8>(lookup(j, "voiced"@))
        &&& opt_decodable::<(u8, u8)>(lookup(j, "animation"@))
        &&& list_decodable::<ReleaseVN>(lookup(j, "vn"@))
        &&& list_decodable::<ReleaseProducer>(lookup(j, "producers"@))
    }

    open spec fn decodes(j: Json, v: Release) -> bool {
        &&& j is Object
        &&& req_decodes(lookup(j, "id"@), v.id)
        &&& opt_decodes(lookup(j, "title"@), v.title)
        &&& opt_decodes(lookup(j, "original"@), v.original)
        &&& opt_decodes(lookup(j, "released"@), v.released)
        &&& opt_decodes(lookup(j, "type"@), v.kind)
        &&& opt_decodes(lookup(j, "patch"@), v.patch)
        &&& opt_decodes(lookup(j, "freeware"@), v.freeware)
        &&& opt_decodes(lookup(j, "doujin"@), v.doujin)
        &&& list_decodes(lookup(j, "languages"@), v.languages@)
        &&& opt_decodes(lookup(j, "website"@), v.website)
        &&& opt_decodes(lookup(j, "notes"@), v.notes)
        &&& opt_decodes(lookup(j, "minage"@), v.age)
        &&& opt_decodes(lookup(j, "gtin"@), v.code)
        &&& opt_decodes(lookup(j, "catalog"@), v.catalog)
        &&& list_decodes(lookup(j, "platforms"@), v.platforms@)
        &&& list_decodes(lookup(j, "media"@), v.media@)
        &&& opt_decodes(lookup(j, "resolution"@), v.resolution)
        &&& opt_decodes(lookup(j, "voiced"@), v.voiced)
        &&& opt_decodes(lookup(j, "animation"@), v.animation)
        &&& list_decodes(lookup(j, "vn"@), v.vn@)
        &&& list_decodes(lookup(j, "producers"@), v.producers@)
    }

    open spec fn alike(a: Release, b: Release) -> bool {
        &&& u64::alike(a.id, b.id)
        &&& opt_alike(a.title, b.title)
        &&& opt_alike(a.original, b.original)
        &&& opt_alike(a.released, b.released)
        &&& opt_alike(a.kind, b.kind)
        &&& opt_alike(a.patch, b.patch)
        &&& opt_alike(a.freeware, b.freeware)
        &&& opt_alike(a.doujin, b.doujin)
        &&& seq_alike(a.languages@, b.languages@)
        &&& opt_alike(a.website, b.website)
        &&& opt_alike(a.notes, b.notes)
        &&& opt_alike(a.age, b.age)
        &&& opt_alike(a.code, b.code)
        &&& opt_alike(a.catalog, b.catalog)
        &&& seq_alike(a.platforms@, b.platforms@)
        &&& seq_alike(a.media@, b.media@)
        &&& opt_alike(a.resolution, b.resolution)
        &&& opt_alike(a.voiced, b.voiced)
        &&& opt_alike(a.animation, b.animation)
        &&& seq_alike(a.vn@, b.vn@)
        &&& seq_alike(a.producers@, b.producers@)
    }

    proof fn lemma_decodes_unique(j: Json, a: Release, b: Release) {
        lemma_req_unique(lookup(j, "id"@), a.id, b.id);
        lemma_opt_unique(lookup(j, "title"@), a.title, b.title);
        lemma_opt_unique(lookup(j, "original"@), a.original, b.original);
        lemma_opt_unique(lookup(j, "released"@), a.released, b.released);
        lemma_opt_unique(lookup(j, "type"@), a.kind, b.kind);
        lemma_opt_unique(lookup(j, "patch"@), a.patch, b.patch);
        lemma_opt_unique(lookup(j, "freeware"@), a.freeware, b.freeware);
        lemma_opt_unique(lookup(j, "doujin"@), a.doujin, b.doujin);
        lemma_list_unique(lookup(j, "languages"@), a.languages@, b.languages@);
        lemma_opt_unique(lookup(j, "website"@), a.website, b.website);
        lemma_opt_unique(lookup(j, "notes"@), a.notes, b.notes);
        lemma_opt_unique(lookup(j, "minage"@), a.age, b.age);
        lemma_opt_unique(lookup(j, "gtin"@), a.code, b.code);
        lemma_opt_unique(lookup(j, "catalog"@), a.catalog, b.catalog);
        lemma_list_unique(lookup(j, "platforms"@), a.platforms@, b.platforms@);
        lemma_list_unique(lookup(j, "media"@), a.media@, b.media@);
        lemma_opt_unique(lookup(j, "resolution"@), a.resolution, b.resolution);
        lemma_opt_unique(lookup(j, "voiced"@), a.voiced, b.voiced);
        lemma_opt_unique(lookup(j, "animation"@), a.animation, b.animation);
        lemma_list_unique(lookup(j, "vn"@), a.vn@, b.vn@);
        lemma_list_unique(lookup(j, "producers"@), a.producers@, b.producers@);
    }

    fn from_json(j: &Json) -> (r: Option<Release>) {
        if !j.is_object() {
            return None;
        }
        let id = req_member::<u64>(j, "id")?;
        let title = opt_member::<String>(j, "title")?;
        let original = opt_member::<String>(j, "original")?;
        let released = opt_member::<String>(j, "released")?;
        let kind = opt_member::<String>(j, "type")?;
        let patch = opt_member::<bool>(j, "patch")?;
        let freeware = opt_member::<bool>(j, "freeware")?;
        let doujin = opt_member::<bool>(j, "doujin")?;
        let languages = list_member::<String>(j, "languages")?;
        let website = opt_member::<String>(j, "website")?;
        let notes = opt_member::<String>(j, "notes")?;
        let age = opt_member::<u8>(j, "minage")?;
        let code = opt_member::<String>(j, "gtin")?;
        let catalog = opt_member::<String>(j, "catalog")?;
        let platforms = list_member::<String>(j, "platforms")?;
        let media = list_member::<ReleaseMedia>(j, "media")?;
        let resolution = opt_member::<String>(j, "resolution")?;
        let voiced = opt_member::<u8>(j, "voiced")?;
        let animation = opt_member::<(u8, u8)>(j, "animation")?;
        let vn = list_member::<ReleaseVN>(j, "vn")?;
        let producers = list_member::<ReleaseProducer>(j, "producers")?;
        Some(
            Release {
                id,
                title,
                original,
                released,
                kind,
                patch,
                freeware,
                doujin,
                languages,
                website,
                notes,
                age,
                code,
                catalog,
                platforms,
                media,
                resolution,
                voiced,
                animation,
                vn,
                producers,
            },
        )
    }
}

/// Links of a producer to other sites.
#[derive(Clone, Debug, PartialEq)]
pub struct ProducerLinks {
    /// Its homepage.
    pub homepage: Option<String>,
    /// Its Wikidata identifier.
    pub wikidata: Option<String>,
}

impl FromJson for ProducerLinks {
    open spec fn decodable(j: Json) -> bool {
        &&& j is Object
        &&& opt_decodable::<String>(lookup(j, "homepage"@))
        &&& opt_decodable::<String>(lookup(j, "wikidata"@))
    }

    open spec fn decodes(j: Json, v: ProducerLinks) -> bool {
        &&& j is Object
        &&& opt_decodes(lookup(j, "homepage"@), v.homepage)
        &&& opt_decodes(lookup(j, "wikidata"@), v.wikidata)
    }

    open spec fn alike(a: ProducerLinks, b: ProducerLinks) -> bool {
        &&& opt_alike(a.homepage, b.homepage)
        &&& opt_alike(a.wikidata, b.wikidata)
    }

    proof fn lemma_decodes_unique(j: Json, a: ProducerLinks, b: ProducerLinks) {
        lemma_opt_unique(lookup(j, "homepage"@), a.homepage, b.homepage);
        lemma_opt_unique(lookup(j, "wikidata"@), a.wikidata, b.wikidata);
    }

    fn from_json(j: &Json) -> (r: Option<ProducerLinks>) {
        if !j.is_object() {
            return None;
        }
        let homepage = opt_member::<String>(j, "homepage")?;
        let wikidata = opt_member::<String>(j, "wikidata")?;
        Some(ProducerLinks { homepage, wikidata })
    }
}

/// A producer related to another.
#[derive(Clone, Debug, PartialEq)]
pub struct ProducerRelation {
    /// Its identifier.
    pub id: u64,
    /// How it is related.
    pub relation: String,
    /// Its name in romaji.
    pub name: String,
    /// Its name in the original language.
    pub original: Option<String>,
}

impl FromJson for ProducerRelation {
    open spec fn decodable(j: Json) -> bool {
        &&& j is Object
        &&& req_decodable::<u64>(lookup(j, "id"@))
        &&& req_decodable::<String>(lookup(j, "relation"@))
        &&& req_decodable::<String>(lookup(j, "name"@))
        &&& opt_decodable::<String>(lookup(j, "original"@))
    }

    open spec fn decodes(j: Json, v: ProducerRelation) -> bool {
        &&& j is Object
        &&& req_decodes(lookup(j, "id"@), v.id)
        &&& req_decodes(lookup(j, "relation"@), v.relation)
        &&& req_decodes(lookup(j, "name"@), v.name)
        &&& opt_decodes(lookup(j, "original"@), v.original)
    }

    open spec fn alike(a: ProducerRelation, b: ProducerRelation) -> bool {
        &&& u64::alike(a.id, b.id)
        &&& String::alike(a.relation, b.relation)
        &&& String::alike(a.name, b.name)
        &&& opt_alike(a.original, b.original)
    }

    proof fn lemma_decodes_unique(j: Json, a: ProducerRelation, b: ProducerRelation) {
        lemma_req_unique(lookup(j, "id"@), a.id, b.id);
        lemma_req_unique(lookup(j, "relation"@), a.relation, b.relation);
        lemma_req_unique(lookup(j, "name"@), a.name, b.name);
        lemma_opt_unique(lookup(j, "original"@), a.original, b.original);
    }

    fn from_json(j: &Json) -> (r: Option<ProducerRelation>) {
        if !j.is_object() {
            return None;
        }
        let id = req_member::<u64>(j, "id")?;
        let relation = req_member::<String>(j, "relation")?;
        let name = req_member::<String>(j, "name")?;
        let original = opt_member::<String>(j, "original")?;
        Some(ProducerRelation { id, relation, name, original })
    }
}

/// A producer, as `get producer` sends it.
///
/// Members other than `id` come with the flag that asks for them.
#[derive(Clone, Debug, PartialEq)]
pub struct Producer {
    /// Its identifier.
    pub id: u64,
    /// Its name in romaji (`basic`).
    pub name: Option<String>,
    /// Its name in the original language (`basic`).
    pub original: Option<String>,
    /// Its type (`basic`).
    pub kind: Option<String>,
    /// Its main language (`basic`).
    pub language: Option<String>,
    /// Its links (`details`).
    pub links: Option<ProducerLinks>,
    /// Its aliases, one per line (`details`).
    pub aliases: Option<String>,
    /// Its description (`details`).
    pub description: Option<String>,
    /// Related producers (`relations`).
    pub relations: Vec<ProducerRelation>,
}

impl FromJson for Producer {
    open spec fn decodable(j: Json) -> bool {
        &&& j is Object
        &&& req_decodable::<u64>(lookup(j, "id"@))
        &&& opt_decodable::<String>(lookup(j, "name"@))
        &&& opt_decodable::<String>(lookup(j, "original"@))
        &&& opt_decodable::<String>(lookup(j, "type"@))
        &&& opt_decodable::<String>(lookup(j, "language"@))
        &&& opt_decodable::<ProducerLinks>(lookup(j, "links"@))
        &&& opt_decodable::<String>(lookup(j, "aliases"@))
        &&& opt_decodable::<String>(lookup(j, "description"@))
        &&& list_decodable::<ProducerRelation>(lookup(j, "relations"@))
    }

    open spec fn decodes(j: Json, v: Producer) -> bool {
        &&& j is Object
        &&& req_decodes(lookup(j, "id"@), v.id)
        &&& opt_decodes(lookup(j, "name"@), v.name)
        &&& opt_decodes(lookup(j, "original"@), v.original)
        &&& opt_decodes(lookup(j, "type"@), v.kind)
        &&& opt_decodes(lookup(j, "language"@), v.language)
        &&& opt_decodes(lookup(j, "links"@), v.links)
        &&& opt_decodes(lookup(j, "aliases"@), v.aliases)
        &&& opt_decodes(lookup(j, "description"@), v.description)
        &&& list_decodes(lookup(j, "relations"@), v.relations@)
    }

    open spec fn alike(a: Producer, b: Producer) -> bool {
        &&& u64::alike(a.id, b.id)
        &&& opt_alike(a.name, b.name)
        &&& opt_alike(a.original, b.original)
        &&& opt_alike(a.kind, b.kind)
        &&& opt_alike(a.language, b.language)
        &&& opt_alike(a.links, b.links)
        &&& opt_alike(a.aliases, b.aliases)
        &&& opt_alike(a.description, b.description)
        &&& seq_alike(a.relations@, b.relations@)
    }

    proof fn lemma_decodes_unique(j: Json, a: Producer, b: Producer) {
        lemma_req_unique(lookup(j, "id"@), a.id, b.id);
        lemma_opt_unique(lookup(j, "name"@), a.name, b.name);
        lemma_opt_unique(lookup(j, "original"@), a.original, b.original);
        lemma_opt_unique(lookup(j, "type"@), a.kind, b.kind);
        lemma_opt_unique(lookup(j, "language"@), a.language, b.language);
        lemma_opt_unique(lookup(j, "links"@), a.links, b.links);
        lemma_opt_unique(lookup(j, "aliases"@), a.aliases, b.aliases);
        lemma_opt_unique(lookup(j, "description"@), a.description, b.description);
        lemma_list_unique(lookup(j, "relations"@), a.relations@, b.relations@);
    }

    fn from_json(j: &Json) -> (r: Option<Producer>) {
        if !j.is_object() {
            return None;
        }
        let id = req_member::<u64>(j, "id")?;
        let name = opt_member::<String>(j, "name")?;
        let original = opt_member::<String>(j, "original")?;
        let kind = opt_member::<String>(j, "type")?;
        let language = opt_member::<String>(j, "language")?;
        let links = opt_member::<ProducerLinks>(j, "links")?;
        let aliases = opt_member::<String>(j, "aliases")?;
        let description = opt_member::<String>(j, "description")?;
        let relations = list_member::<ProducerRelation>(j, "relations")?;
        Some(
            Producer {
                id,
                name,
                original,
                kind,
                language,
                links,
                aliases,
                description,
                relations,
            },
        )
    }
}

/// A voice actor of a character.
#[derive(Clone, Debug, PartialEq)]
pub struct CharacterSeiyuu {
    /// The staff's identifier.
    pub id: u64,
    /// The identifier of the alias credited.
    pub aid: u64,
    /// The visual novel.
    pub vid: u64,
    /// A note.
    pub note: String,
}

impl FromJson for CharacterSeiyuu {
    open spec fn decodable(j: Json) -> bool {
        &&& j is Object
        &&& req_decodable::<u64>(lookup(j, "id"@))
        &&& req_decodable::<u64>(lookup(j, "aid"@))
        &&& req_decodable::<u64>(lookup(j, "vid"@))
        &&& req_decodable::<String>(lookup(j, "note"@))
    }

    open spec fn decodes(j: Json, v: CharacterSeiyuu) -> bool {
        &&& j is Object
        &&& req_decodes(lookup(j, "id"@), v.id)
        &&& req_decodes(lookup(j, "aid"@), v.aid)
        &&& req_decodes(lookup(j, "vid"@), v.vid)
        &&& req_decodes(lookup(j, "note"@), v.note)
    }

    open spec fn alike(a: CharacterSeiyuu, b: CharacterSeiyuu) -> bool {
        &&& u64::alike(a.id, b.id)
        &&& u64::alike(a.aid, b.aid)
        &&& u64::alike(a.vid, b.vid)
        &&& String::alike(a.note, b.note)
    }

    proof fn lemma_decodes_unique(j: Json, a: CharacterSeiyuu, b: CharacterSeiyuu) {
        lemma_req_unique(lookup(j, "id"@), a.id, b.id);
        lemma_req_unique(lookup(j, "aid"@), a.aid, b.aid);
        lemma_req_unique(lookup(j, "vid"@), a.vid, b.vid);
        lemma_req_unique(lookup(j, "note"@), a.note, b.note);
    }

    fn from_json(j: &Json) -> (r: Option<CharacterSeiyuu>) {
        if !j.is_object() {
            return None;
        }
        let id = req_member::<u64>(j, "id")?;
        let aid = req_member::<u64>(j, "aid")?;
        let vid = req_member::<u64>(j, "vid")?;
        let note = req_member::<String>(j, "note")?;
        Some(CharacterSeiyuu { id, aid, vid, note })
    }
}

/// A character, as `get character` sends it.
///
/// Members other than `id` come with the flag that asks for them.
#[derive(Clone, Debug, PartialEq)]
pub struct Character {
    /// Its identifier.
    pub id: u64,
    /// Its name in romaji (`basic`).
    pub name: Option<String>,
    /// Its name in the original language (`basic`).
    pub original: Option<String>,
    /// Its gender (`basic`).
    pub gender: Option<CharacterGender>,
    /// Its blood type (`basic`).
    pub blood_type: Option<String>,
    /// Its birthday, as day and month (`basic`).
    pub birthday: Option<(u8, u8)>,
    /// Its aliases, one per line (`details`).
    pub aliases: Option<String>,
    /// Its description (`details`).
    pub description: Option<String>,
    /// The URL of its image (`details`).
    pub image: Option<String>,
    /// Bust in cm (`meas`).
    pub bust: Option<u16>,
    /// Waist in cm (`meas`).
    pub waist: Option<u16>,
    /// Hip in cm (`meas`).
    pub hip: Option<u16>,
    /// Height in cm (`meas`).
    pub height: Option<u16>,
    /// Weight in kg (`meas`).
    pub weight: Option<u16>,
    /// Its traits, as identifier and spoiler level (`traits`).
    pub traits: Vec<(u64, u8)>,
    /// Its visual novels, as visual novel, release, spoiler level and role (`vns`).
    pub vns: Vec<(u64, u64, u8, String)>,
    /// Its voice actors (`voiced`).
    pub voiced: Vec<CharacterSeiyuu>,
}

impl FromJson for Character {
    open spec fn decodable(j: Json) -> bool {
        &&& j is Object
        &&& req_decodable::<u64>(lookup(j, "id"@))
        &&& opt_decodable::<String>(lookup(j, "name"@))
        &&& opt_decodable::<String>(lookup(j, "original"@))
        &&& opt_decodable::<CharacterGender>(lookup(j, "gender"@))
        &&& opt_decodable::<String>(lookup(j, "bloodt"@))
        &&& opt_decodable::<(u8, u8)>(lookup(j, "birthday"@))
        &&& opt_decodable::<String>(lookup(j, "aliases"@))
        &&& opt_decodable::<String>(lookup(j, "description"@))
        &&& opt_decodable::<String>(lookup(j, "image"@))
        &&& opt_decodable::<u16>(lookup(j, "bust"@))
        &&& opt_decodable::<u16>(lookup(j, "waist"@))
        &&& opt_decodable::<u16>(lookup(j, "hip"@))
        &&& opt_decodable::<u16>(lookup(j, "height"@))
        &&& opt_decodable::<u16>(lookup(j, "weight"@))
        &&& list_decodable::<(u64, u8)>(lookup(j, "traits"@))
        &&& list_decodable::<(u64, u64, u8, String)>(lookup(j, "vns"@))
        &&& list_decodable::<CharacterSeiyuu>(lookup(j, "voiced"@))
    }

    open spec fn decodes(j: Json, v: Character) -> bool {
        &&& j is Object
        &&& req_decodes(lookup(j, "id"@), v.id)
        &&& opt_decodes(lookup(j, "name"@), v.name)
        &&& opt_decodes(lookup(j, "original"@), v.original)
        &&& opt_decodes(lookup(j, "gender"@), v.gender)
        &&& opt_decodes(lookup(j, "bloodt"@), v.blood_type)
        &&& opt_decodes(lookup(j, "birthday"@), v.birthday)
        &&& opt_decodes(lookup(j, "aliases"@), v.aliases)
        &&& opt_decodes(lookup(j, "description"@), v.description)
        &&& opt_decodes(lookup(j, "image"@), v.image)
        &&& opt_decodes(lookup(j, "bust"@), v.bust)
        &&& opt_decodes(lookup(j, "waist"@), v.waist)
        &&& opt_decodes(lookup(j, "hip"@), v.hip)
        &&& opt_decodes(lookup(j, "height"@), v.height)
        &&& opt_decodes(lookup(j, "weight"@), v.weight)
        &&& list_decodes(lookup(j, "traits"@), v.traits@)
        &&& list_decodes(lookup(j, "vns"@), v.vns@)
        &&& list_decodes(lookup(j, "voiced"@), v.voiced@)
    }

    open spec fn alike(a: Character, b: Character) -> bool {
        &&& u64::alike(a.id, b.id)
        &&& opt_alike(a.name, b.name)
        &&& opt_alike(a.original, b.original)
        &&& opt_alike(a.gender, b.gender)
        &&& opt_alike(a.blood_type, b.blood_type)
        &&& opt_alike(a.birthday, b.birthday)
        &&& opt_alike(a.aliases, b.aliases)
        &&& opt_alike(a.description, b.description)
        &&& opt_alike(a.image, b.image)
        &&& opt_alike(a.bust, b.bust)
        &&& opt_alike(a.waist, b.waist)
        &&& opt_alike(a.hip, b.hip)
        &&& opt_alike(a.height, b.height)
        &&& opt_alike(a.weight, b.weight)
        &&& seq_alike(a.traits@, b.traits@)
        &&& seq_alike(a.vns@, b.vns@)
        &&& seq_alike(a.voiced@, b.voiced@)
    }

    proof fn lemma_decodes_unique(j: Json, a: Character, b: Character) {
        lemma_req_unique(lookup(j, "id"@), a.id, b.id);
        lemma_opt_unique(lookup(j, "name"@), a.name, b.name);
        lemma_opt_unique(lookup(j, "original"@), a.original, b.original);
        lemma_opt_unique(lookup(j, "gender"@), a.gender, b.gender);
        lemma_opt_unique(lookup(j, "bloodt"@), a.blood_type, b.blood_type);
        lemma_opt_unique(lookup(j, "birthday"@), a.birthday, b.birthday);
        lemma_opt_unique(lookup(j, "aliases"@), a.aliases, b.aliases);
        lemma_opt_unique(lookup(j, "description"@), a.description, b.description);
        lemma_opt_unique(lookup(j, "image"@), a.image, b.image);
        lemma_opt_unique(lookup(j, "bust"@), a.bust, b.bust);
        lemma_opt_unique(lookup(j, "waist"@), a.waist, b.waist);
        lemma_opt_unique(lookup(j, "hip"@), a.hip, b.hip);
        lemma_opt_unique(lookup(j, "height"@), a.height, b.height);
        lemma_opt_unique(lookup(j, "weight"@), a.weight, b.weight);
        lemma_list_unique(lookup(j, "traits"@), a.traits@, b.traits@);
        lemma_list_unique(lookup(j, "vns"@), a.vns@, b.vns@);
        lemma_list_unique(lookup(j, "voiced"@), a.voiced@, b.voiced@);
    }

    fn from_json(j: &Json) -> (r: Option<Character>) {
        if !j.is_object() {
            return None;
        }
        let id = req_member::<u64>(j, "id")?;
        let name = opt_member::<String>(j, "name")?;
        let original = opt_member::<String>(j, "original")?;
        let gender = opt_member::<CharacterGender>(j, "gender")?;
        let blood_type = opt_member::<String>(j, "bloodt")?;
        let birthday = opt_member::<(u8, u8)>(j, "birthday")?;
        let aliases = opt_member::<String>(j, "aliases")?;
        let description = opt_member::<String>(j, "description")?;
        let image = opt_member::<String>(j, "image")?;
        let bust = opt_member::<u16>(j, "bust")?;
        let waist = opt_member::<u16>(j, "waist")?;
        let hip = opt_member::<u16>(j, "hip")?;
        let height = opt_member::<u16>(j, "height")?;
        let weight = opt_member::<u16>(j, "weight")?;
        let traits = list_member::<(u64, u8)>(j, "traits")?;
        let vns = list_member::<(u64, u64, u8, String)>(j, "vns")?;
        let voiced = list_member::<CharacterSeiyuu>(j, "voiced")?;
        Some(
            Character {
                id,
                name,
                original,
                gender,
                blood_type,
                birthday,
                aliases,
                description,
                image,
                bust,
                waist,
                hip,
                height,
                weight,
                traits,
                vns,
                voiced,
            },
        )
    }
}

/// A user, as `get user` sends it.
#[derive(Clone, Debug, PartialEq)]
pub struct User {
    /// Its identifier (`basic`).
    pub id: Option<u64>,
    /// Its name (`basic`).
    pub name: Option<String>,
}

impl FromJson for User {
    open spec fn decodable(j: Json) -> bool {
        &&& j is Object
        &&& opt_decodable::<u64>(lookup(j, "id"@))
        &&& opt_decodable::<String>(lookup(j, "username"@))
    }

    open spec fn decodes(j: Json, v: User) -> bool {
        &&& j is Object
        &&& opt_decodes(lookup(j, "id"@), v.id)
        &&& opt_decodes(lookup(j, "username"@), v.name)
    }

    open spec fn alike(a: User, b: User) -> bool {
        &&& opt_alike(a.id, b.id)
        &&& opt_alike(a.name, b.name)
    }

    proof fn lemma_decodes_unique(j: Json, a: User, b: User) {
        lemma_opt_unique(lookup(j, "id"@), a.id, b.id);
        lemma_opt_unique(lookup(j, "username"@), a.name, b.name);
    }

    fn from_json(j: &Json) -> (r: Option<User>) {
        if !j.is_object() {
            return None;
        }
        let id = opt_member::<u64>(j, "id")?;
        let name = opt_member::<String>(j, "username")?;
        Some(User { id, name })
    }
}

/// A vote of a user, as `get votelist` sends it.
#[derive(Clone, Debug, PartialEq)]
pub struct VoteList {
    /// The user (`basic`).
    pub uid: Option<u64>,
    /// The visual novel (`basic`).
    pub vn: Option<u64>,
    /// The vote, from 10 to 100 (`basic`).
    pub vote: Option<u8>,
    /// When it was cast, as a Unix time (`basic`).
    pub added: Option<u64>,
}

impl FromJson for VoteList {
    open spec fn decodable(j: Json) -> bool {
        &&& j is Object
        &&& opt_decodable::<u64>(lookup(j, "uid"@))
        &&& opt_decodable::<u64>(lookup(j, "vn"@))
        &&& opt_decodable::<u8>(lookup(j, "vote"@))
        &&& opt_decodable::<u64>(lookup(j, "added"@))
    }

    open spec fn decodes(j: Json, v: VoteList) -> bool {
        &&& j is Object
        &&& opt_decodes(lookup(j, "uid"@), v.uid)
        &&& opt_decodes(lookup(j, "vn"@), v.vn)
        &&& opt_decodes(lookup(j, "vote"@), v.vote)
        &&& opt_decodes(lookup(j, "added"@), v.added)
    }

    open spec fn alike(a: VoteList, b: VoteList) -> bool {
        &&& opt_alike(a.uid, b.uid)
        &&& opt_alike(a.vn, b.vn)
        &&& opt_alike(a.vote, b.vote)
        &&& opt_alike(a.added, b.added)
    }

    proof fn lemma_decodes_unique(j: Json, a: VoteList, b: VoteList) {
        lemma_opt_unique(lookup(j, "uid"@), a.uid, b.uid);
        lemma_opt_unique(lookup(j, "vn"@), a.vn, b.vn);
        lemma_opt_unique(lookup(j, "vote"@), a.vote, b.vote);
        lemma_opt_unique(lookup(j, "added"@), a.added, b.added);
    }

    fn from_json(j: &Json) -> (r: Option<VoteList>) {
        if !j.is_object() {
            return None;
        }
        let uid = opt_member::<u64>(j, "uid")?;
        let vn = opt_member::<u64>(j, "vn")?;
        let vote = opt_member::<u8>(j, "vote")?;
        let added = opt_member::<u64>(j, "added")?;
        Some(VoteList { uid, vn, vote, added })
    }
}

/// An entry of a user's list, as `get vnlist` sends it.
#[derive(Clone, Debug, PartialEq)]
pub struct VnList {
    /// The user (`basic`).
    pub uid: Option<u64>,
    /// The visual novel (`basic`).
    pub vn: Option<u64>,
    /// Where the user is with it (`basic`).
    pub status: Option<VnStatus>,
    /// When it was added, as a Unix time; 0 where absent (`basic`).
    pub added: u64,
    /// The user's notes (`basic`).
    pub notes: Option<String>,
}

impl FromJson for VnList {
    open spec fn decodable(j: Json) -> bool {
        &&& j is Object
        &&& opt_decodable::<u64>(lookup(j, "uid"@))
        &&& opt_decodable::<u64>(lookup(j, "vn"@))
        &&& opt_decodable::<VnStatus>(lookup(j, "status"@))
        &&& zero_decodable(lookup(j, "added"@))
        &&& opt_decodable::<String>(lookup(j, "notes"@))
    }

    open spec fn decodes(j: Json, v: VnList) -> bool {
        &&& j is Object
        &&& opt_decodes(lookup(j, "uid"@), v.uid)
        &&& opt_decodes(lookup(j, "vn"@), v.vn)
        &&& opt_decodes(lookup(j, "status"@), v.status)
        &&& zero_decodes(lookup(j, "added"@), v.added)
        &&& opt_decodes(lookup(j, "notes"@), v.notes)
    }

    open spec fn alike(a: VnList, b: VnList) -> bool {
        &&& opt_alike(a.uid, b.uid)
        &&& opt_alike(a.vn, b.vn)
        &&& opt_alike(a.status, b.status)
        &&& a.added == b.added
        &&& opt_alike(a.notes, b.notes)
    }

    proof fn lemma_decodes_unique(j: Json, a: VnList, b: VnList) {
        lemma_opt_unique(lookup(j, "uid"@), a.uid, b.uid);
        lemma_opt_unique(lookup(j, "vn"@), a.vn, b.vn);
        lemma_opt_unique(lookup(j, "status"@), a.status, b.status);
        lemma_zero_unique(lookup(j, "added"@), a.added, b.added);
        lemma_opt_unique(lookup(j, "notes"@), a.notes, b.notes);
    }

    fn from_json(j: &Json) -> (r: Option<VnList>) {
        if !j.is_object() {
            return None;
        }
        let uid = opt_member::<u64>(j, "uid")?;
        let vn = opt_member::<u64>(j, "vn")?;
        let status = opt_member::<VnStatus>(j, "status")?;
        let added = zero_member(j, "added")?;
        let notes = opt_member::<String>(j, "notes")?;
        Some(VnList { uid, vn, status, added, notes })
    }
}

/// An entry of a user's list, as `get ulist` sends it.
#[derive(Clone, Debug, PartialEq)]
pub struct UList {
    /// The user (`basic`).
    pub uid: Option<u64>,
    /// The visual novel (`basic`).
    pub vn: Option<u64>,
    /// When it was added, as a Unix time; 0 where absent (`basic`).
    pub added: u64,
    /// When it last changed, as a Unix time; 0 where absent (`basic`).
    pub last_mod: u64,
    /// When the vote was cast, as a Unix time; 0 where absent (`basic`).
    pub voted: u64,
    /// The vote, from 10 to 100 (`basic`).
    pub vote: Option<u8>,
    /// The user's notes (`basic`).
    pub notes: Option<String>,
}

impl FromJson for UList {
    open spec fn decodable(j: Json) -> bool {
        &&& j is Object
        &&& opt_decodable::<u64>(lookup(j, "uid"@))
        &&& opt_decodable::<u64>(lookup(j, "vn"@))
        &&& zero_decodable(lookup(j, "added"@))
        &&& zero_decodable(lookup(j, "lastmod"@))
        &&& zero_decodable(lookup(j, "voted"@))
        &&& opt_decodable::<u8>(lookup(j, "vote"@))
        &&& opt_decodable::<String>(lookup(j, "notes"@))
    }

    open spec fn decodes(j: Json, v: UList) -> bool {
        &&& j is Object
        &&& opt_decodes(lookup(j, "uid"@), v.uid)
        &&& opt_decodes(lookup(j, "vn"@), v.vn)
        &&& zero_decodes(lookup(j, "added"@), v.added)
        &&& zero_decodes(lookup(j, "lastmod"@), v.last_mod)
        &&& zero_decodes(lookup(j, "voted"@), v.voted)
        &&& opt_decodes(lookup(j, "vote"@), v.vote)
        &&& opt_decodes(lookup(j, "notes"@), v.notes)
    }

    open spec fn alike(a: UList, b: UList) -> bool {
        &&& opt_alike(a.uid, b.uid)
        &&& opt_alike(a.vn, b.vn)
        &&& a.added == b.added
        &&& a.last_mod == b.last_mod
        &&& a.voted == b.voted
        &&& opt_alike(a.vote, b.vote)
        &&& opt_alike(a.notes, b.notes)
    }

    proof fn lemma_decodes_unique(j: Json, a: UList, b: UList) {
        lemma_opt_unique(lookup(j, "uid"@), a.uid, b.uid);
        lemma_opt_unique(lookup(j, "vn"@), a.vn, b.vn);
        lemma_zero_unique(lookup(j, "added"@), a.added, b.added);
        lemma_zero_unique(lookup(j, "lastmod"@), a.last_mod, b.last_mod);
        lemma_zero_unique(lookup(j, "voted"@), a.voted, b.voted);
        lemma_opt_unique(lookup(j, "vote"@), a.vote, b.vote);
        lemma_opt_unique(lookup(j, "notes"@), a.notes, b.notes);
    }

    fn from_json(j: &Json) -> (r: Option<UList>) {
        if !j.is_object() {
            return None;
        }
        let uid = opt_member::<u64>(j, "uid")?;
        let vn = opt_member::<u64>(j, "vn")?;
        let added = zero_member(j, "added")?;
        let last_mod = zero_member(j, "lastmod")?;
        let voted = zero_member(j, "voted")?;
        let vote = opt_member::<u8>(j, "vote")?;
        let notes = opt_member::<String>(j, "notes")?;
        Some(UList { uid, vn, added, last_mod, voted, vote, notes })
    }
}

/// The gender of a character.
#[derive(Clone, Copy, Debug, PartialEq, Eq)]
pub enum CharacterGender {
    /// Male, `m`.
    Male,
    /// Female, `f`.
    Female,
    /// Both, `b`.
    Both,
}

impl CharacterGender {
    /// The wire code: `m`, `f` or `b`.
    pub fn code(&self) -> (r: &'static str)
        ensures
            r@ == gender_code(*self),
    {
        match self {
            CharacterGender::Male => "m",
            CharacterGender::Female => "f",
            CharacterGender::Both => "b",
        }
    }
}

/// The wire code of a gender.
pub open spec fn gender_code(g: CharacterGender) -> Seq<char> {
    match g {
        CharacterGender::Male => "m"@,
        CharacterGender::Female => "f"@,
        CharacterGender::Both => "b"@,
    }
}

impl FromJson for CharacterGender {
    open spec fn decodable(j: Json) -> bool {
        str_of(j) == Some("m"@) || str_of(j) == Some("f"@) || str_of(j) == Some("b"@)
    }

    open spec fn decodes(j: Json, v: CharacterGender) -> bool {
        str_of(j) == Some(gender_code(v))
    }

    open spec fn alike(a: CharacterGender, b: CharacterGender) -> bool {
        a == b
    }

    proof fn lemma_decodes_unique(j: Json, a: CharacterGender, b: CharacterGender) {
        reveal_strlit("m");
        reveal_strlit("f");
        reveal_strlit("b");
        if a != b {
            assert(gender_code(a)[0] != gender_code(b)[0]);
        }
    }

    fn from_json(j: &Json) -> (r: Option<CharacterGender>) {
        let s = j.as_str()?;
        if *s == String::from_str("m") {
            Some(CharacterGender::Male)
        } else if *s == String::from_str("f") {
            Some(CharacterGender::Female)
        } else if *s == String::from_str("b") {
            Some(CharacterGender::Both)
        } else {
            None
        }
    }
}

/// Where a user is with a visual novel of their list.
#[derive(Clone, Copy, Debug, PartialEq, Eq)]
pub enum VnStatus {
    /// Unknown, `0`.
    Unknown,
    /// Playing, `1`.
    Playing,
    /// Finished, `2`.
    Finished,
    /// Stalled, `3`.
    Stalled,
    /// Dropped, `4`.
    Dropped,
}

/// The wire code of a status.
pub open spec fn status_code(s: VnStatus) -> u8 {
    match s {
        VnStatus::Unknown => 0,
        VnStatus::Playing => 1,
        VnStatus::Finished => 2,
        VnStatus::Stalled => 3,
        VnStatus::Dropped => 4,
    }
}

impl VnStatus {
    /// The wire code, from 0 to 4.
    pub fn code(&self) -> (r: u8)
        ensures
            r == status_code(*self),
    {
        match self {
            VnStatus::Unknown => 0,
            VnStatus::Playing => 1,
            VnStatus::Finished => 2,
            VnStatus::Stalled => 3,
            VnStatus::Dropped => 4,
        }
    }
}

impl FromJson for VnStatus {
    open spec fn decodable(j: Json) -> bool {
        uint_of(j, 4) is Some
    }

    open spec fn decodes(j: Json, v: VnStatus) -> bool {
        uint_of(j, 4) == Some(status_code(v) as u64)
    }

    open spec fn alike(a: VnStatus, b: VnStatus) -> bool {
        a == b
    }

    proof fn lemma_decodes_unique(j: Json, a: VnStatus, b: VnStatus) {
    }

    fn from_json(j: &Json) -> (r: Option<VnStatus>) {
        match j.as_uint(4)? {
            0 => Some(VnStatus::Unknown),
            1 => Some(VnStatus::Playing),
            2 => Some(VnStatus::Finished),
            3 => Some(VnStatus::Stalled),
            _ => Some(VnStatus::Dropped),
        }
    }
}

/// The common shape of the `results` of a `get`: a page of entities.
#[derive(Clone, Debug, PartialEq)]
pub struct TypedResults<T> {
    /// The number of entities on this page.
    pub num: u32,
    /// Whether more pages follow.
    pub more: bool,
    /// The entities.
    pub items: Vec<T>,
}

impl<T> TypedResults<T> {
    /// The number of entities held.
    pub fn len(&self) -> (r: usize)
        ensures
            r == self.items@.len(),
    {
        self.items.len()
    }
}

impl<T: FromJson> FromJson for TypedResults<T> {
    open spec fn decodable(j: Json) -> bool {
        &&& j is Object
        &&& req_decodable::<u32>(lookup(j, "num"@))
        &&& req_decodable::<bool>(lookup(j, "more"@))
        &&& req_decodable::<Vec<T>>(lookup(j, "items"@))
    }

    open spec fn decodes(j: Json, v: TypedResults<T>) -> bool {
        &&& j is Object
        &&& req_decodes(lookup(j, "num"@), v.num)
        &&& req_decodes(lookup(j, "more"@), v.more)
        &&& req_decodes(lookup(j, "items"@), v.items)
    }

    open spec fn alike(a: TypedResults<T>, b: TypedResults<T>) -> bool {
        &&& a.num == b.num
        &&& a.more == b.more
        &&& seq_alike(a.items@, b.items@)
    }

    proof fn lemma_decodes_unique(j: Json, a: TypedResults<T>, b: TypedResults<T>) {
        lemma_req_unique(lookup(j, "num"@), a.num, b.num);
        lemma_req_unique(lookup(j, "more"@), a.more, b.more);
        lemma_req_unique(lookup(j, "items"@), a.items, b.items);
    }

    fn from_json(j: &Json) -> (r: Option<TypedResults<T>>) {
        if !j.is_object() {
            return None;
        }
        let num = req_member::<u32>(j, "num")?;
        let more = req_member::<bool>(j, "more")?;
        let items = req_member::<Vec<T>>(j, "items")?;
        Some(TypedResults { num, more, items })
    }
}

/// Results of `get vn`.
pub type VN = TypedResults<Vn>;

/// Results of `get release`.
pub type ReleaseResults = TypedResults<Release>;

/// Results of `get producer`.
pub type ProducerResults = TypedResults<Producer>;

/// Results of `get character`.
pub type CharacterResults = TypedResults<Character>;

/// Results of `get user`.
pub type UserResults = TypedResults<User>;

/// Results of `get votelist`.
pub type VoteListResults = TypedResults<VoteList>;

/// Results of `get vnlist`.
pub type VnListResults = TypedResults<VnList>;

/// Results of `get ulist`.
pub type UListResults = TypedResults<UList>;

} // verus!
