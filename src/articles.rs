use vstd::prelude::*;
use vstd::string::*;
use vstd::seq_lib::{group_to_multiset_ensures, to_multiset_build, to_multiset_insert};
use vstd::multiset::Multiset;
use crate::text::{ends_with, has_suffix};

verus! {

#[verifier::external_type_specification]
#[verifier::external_body]
#[verifier::reject_recursive_types(K)]
#[verifier::reject_recursive_types(V)]
pub struct ExJsonMap<K, V>(serde_json::Map<K, V>);

/// What a JSON object holds, key by key.
pub uninterp spec fn object_entries(m: serde_json::Map<String, serde_json::Value>) -> Map<Seq<char>, serde_json::Value>;

/// The JSON string value with the given text.
pub uninterp spec fn json_string(s: Seq<char>) -> serde_json::Value;

/// Whether serde_json accepts a text as one JSON object.
pub uninterp spec fn parses_as_object(s: Seq<char>) -> bool;

/// What the JSON object that serde_json reads from a text holds, key by key.
pub uninterp spec fn object_of(s: Seq<char>) -> Map<Seq<char>, serde_json::Value>;

/// Relies on `serde_json::from_str::<Map<String, Value>>`: it succeeds exactly on
/// text serde_json accepts as one JSON object, and what the object holds
/// depends on the text alone.
#[verifier::external_body]
fn parse_object(s: &str) -> (r: Option<serde_json::Map<String, serde_json::Value>>)
    ensures
        r is Some <==> parses_as_object(s@),
        r matches Some(m) ==> object_entries(m) == object_of(s@),
{
    serde_json::from_str::<serde_json::Map<String, serde_json::Value>>(s).ok()
}

/// Relies on `serde_json::Map::insert`: `key` is set to `text` as a JSON string
/// (`Value::String`), replacing what it held; other keys stay.
#[verifier::external_body]
fn insert_string(m: &mut serde_json::Map<String, serde_json::Value>, key: String, text: String)
    ensures
        object_entries(*final(m)) == object_entries(*old(m)).insert(key@, json_string(text@)),
{
    m.insert(key, serde_json::Value::String(text));
}

/// Sets the key `id` of the metadata to the article's id.
fn set_id(m: &mut serde_json::Map<String, serde_json::Value>, id: String)
    ensures
        object_entries(*final(m)) == object_entries(*old(m)).insert("id"@, json_string(id@)),
{
    insert_string(m, String::from_str("id"), id);
}

/// The ending of a metadata file's name.
pub open spec fn metadata_suffix() -> Seq<char> {
    "-metadata.json"@
}

/// Whether a file inside an article's directory is taken as its metadata.
pub open spec fn metadata_name(name: Seq<char>) -> bool {
    has_suffix(name, metadata_suffix()) || name == "metadata.json"@
}

/// Whether `name` is `*-metadata.json` or `metadata.json`.
pub fn is_metadata_name(name: &str) -> (r: bool)
    ensures
        r == metadata_name(name@),
{
    let s = String::from_str(name);
    ends_with(name, "-metadata.json") || s == String::from_str("metadata.json")
}

/// Whether a flat file is an article's metadata, by its name.
pub fn is_flat_metadata_name(name: &str) -> (r: bool)
    ensures
        r == has_suffix(name@, metadata_suffix()),
{
    ends_with(name, "-metadata.json")
}

/// Strict order of names, character by character, a proper prefix first.
pub open spec fn name_lt(a: Seq<char>, b: Seq<char>) -> bool
    decreases a.len(),
{
    if a.len() == 0 {
        b.len() > 0
    } else if b.len() == 0 {
        false
    } else if a[0] != b[0] {
        (a[0] as u32) < (b[0] as u32)
    } else {
        name_lt(a.drop_first(), b.drop_first())
    }
}

proof fn lemma_name_lt_irreflexive(a: Seq<char>)
    ensures
        !name_lt(a, a),
    decreases a.len(),
{
    if a.len() > 0 {
        lemma_name_lt_irreflexive(a.drop_first());
    }
}

proof fn lemma_name_lt_transitive(a: Seq<char>, b: Seq<char>, c: Seq<char>)
    requires
        name_lt(a, b),
        name_lt(b, c),
    ensures
        name_lt(a, c),
    decreases a.len(),
{
    if a.len() > 0 && b.len() > 0 && c.len() > 0 && a[0] == b[0] && b[0] == c[0] {
        lemma_name_lt_transitive(a.drop_first(), b.drop_first(), c.drop_first());
    }
}

/// Compares two names by `name_lt`.
pub fn name_less(a: &str, b: &str) -> (r: bool)
    ensures
        r == name_lt(a@, b@),
    decreases a@.len(),
{
    let n = a.unicode_len();
    let m = b.unicode_len();
    if n == 0 {
        return m > 0;
    }
    if m == 0 {
        return false;
    }
    let x = a.get_char(0);
    let y = b.get_char(0);
    if x != y {
        return (x as u32) < (y as u32);
    }
    let ta = a.substring_char(1, n);
    let tb = b.substring_char(1, m);
    assert(ta@ =~= a@.drop_first());
    assert(tb@ =~= b@.drop_first());
    name_less(ta, tb)
}

/// One file inside an article's directory, with its text where it was read.
pub struct MetadataFile {
    pub name: String,
    pub content: Option<String>,
}

/// What an entry of the articles directory is.
pub enum EntryKind {
    /// A directory, with the files in it.
    Dir(Vec<MetadataFile>),
    /// A file, with its text where it was read.
    File(Option<String>),
}

/// One entry of the articles directory.
pub struct ArticleEntry {
    pub name: String,
    pub kind: EntryKind,
}

/// One article found: its id and its metadata, with `id` set to it.
pub struct Article {
    pub id: String,
    pub meta: serde_json::Map<String, serde_json::Value>,
}

/// Names in descending order.
pub open spec fn sorted_desc(s: Seq<ArticleEntry>) -> bool {
    forall|i: int, j: int|
        0 <= i < j < s.len() ==> !name_lt(#[trigger] s[i].name@, #[trigger] s[j].name@)
}

/// Orders the entries by name, the greatest first.
pub fn sort_entries_desc(entries: Vec<ArticleEntry>) -> (r: Vec<ArticleEntry>)
    ensures
        r@.to_multiset() == entries@.to_multiset(),
        sorted_desc(r@),
{
    broadcast use group_to_multiset_ensures;

    let mut rest = entries;
    let mut out: Vec<ArticleEntry> = Vec::new();
    while rest.len() > 0
        invariant
            out@.to_multiset().add(rest@.to_multiset()) == entries@.to_multiset(),
            sorted_desc(out@),
        decreases rest.len(),
    {
        let ghost rest0 = rest@;
        let e = rest.pop().unwrap();
        assert(rest0 =~= rest@.push(e));
        let mut k: usize = 0;
        let mut found = false;
        while !found && k < out.len()
            invariant
                k <= out.len(),
                forall|j: int| 0 <= j < k ==> !name_lt(#[trigger] out@[j].name@, e.name@),
                found ==> (k < out.len() && name_lt(out@[k as int].name@, e.name@)),
            decreases out.len() - k + (if found { 0int } else { 1int }),
        {
            if name_less(out[k].name.as_str(), e.name.as_str()) {
                found = true;
            } else {
                k = k + 1;
            }
        }
        let ghost s = out@;
        out.insert(k, e);
        proof {
            assert(out@ == s.insert(k as int, e));
            assert forall|i: int, j: int| 0 <= i < j < out@.len() implies !name_lt(
                #[trigger] out@[i].name@,
                #[trigger] out@[j].name@,
            ) by {
                if i == k {
                    if name_lt(e.name@, s[j - 1].name@) {
                        lemma_name_lt_transitive(s[k as int].name@, e.name@, s[j - 1].name@);
                        if j - 1 == k {
                            lemma_name_lt_irreflexive(s[k as int].name@);
                        } else {
                            assert(!name_lt(s[k as int].name@, s[j - 1].name@));
                        }
                    }
                } else if j == k {
                    assert(out@[i] == s[i]);
                } else {
                    let ii = if i < k { i } else { i - 1 };
                    let jj = if j < k { j } else { j - 1 };
                    assert(out@[i] == s[ii]);
                    assert(out@[j] == s[jj]);
                    assert(!name_lt(s[ii].name@, s[jj].name@));
                }
            }
            to_multiset_insert(s, k as int, e);
            to_multiset_build(rest@, e);
            assert(out@.to_multiset().add(rest@.to_multiset()) =~= s.to_multiset().add(
                rest0.to_multiset(),
            ));
        }
    }
    assert(rest@.to_multiset() =~= Multiset::empty());
    assert(out@.to_multiset().add(rest@.to_multiset()) =~= out@.to_multiset());
    out
}

/// Whether a file of an article's directory is metadata that can be used.
pub open spec fn usable_metadata(f: MetadataFile) -> bool {
    metadata_name(f.name@) && (f.content matches Some(c) && parses_as_object(c@))
}

/// Whether some file of the directory is usable metadata.
pub open spec fn dir_has_metadata(files: Seq<MetadataFile>) -> bool {
    exists|i: int| 0 <= i < files.len() && usable_metadata(#[trigger] files[i])
}

/// The id of the article an entry holds, if it holds one: a directory's name,
/// or a flat metadata file's name without its ending.
pub open spec fn article_id(e: ArticleEntry) -> Option<Seq<char>> {
    match e.kind {
        EntryKind::Dir(files) => if dir_has_metadata(files@) {
            Some(e.name@)
        } else {
            None
        },
        EntryKind::File(content) => if has_suffix(e.name@, metadata_suffix()) && (content matches Some(
            t,
        ) && parses_as_object(t@)) {
            Some(e.name@.subrange(0, e.name@.len() - metadata_suffix().len()))
        } else {
            None
        },
    }
}

/// The metadata object of a directory's files: that of the first usable one.
pub open spec fn metadata_object(files: Seq<MetadataFile>) -> Option<Map<Seq<char>, serde_json::Value>>
    decreases files.len(),
{
    if files.len() == 0 {
        None
    } else if usable_metadata(files[0]) {
        Some(object_of(files[0].content->Some_0@))
    } else {
        metadata_object(files.drop_first())
    }
}

/// The metadata object an entry was found to hold (empty where it holds none).
pub open spec fn found_object(e: ArticleEntry) -> Map<Seq<char>, serde_json::Value> {
    match e.kind {
        EntryKind::Dir(files) => match metadata_object(files@) {
            Some(o) => o,
            None => Map::empty(),
        },
        EntryKind::File(Some(t)) => object_of(t@),
        EntryKind::File(None) => Map::empty(),
    }
}

/// The article an entry holds, as its id and its metadata: the object found,
/// with `id` set to the id and every other key as it was.
pub open spec fn article_record(e: ArticleEntry) -> Option<(Seq<char>, Map<Seq<char>, serde_json::Value>)> {
    match article_id(e) {
        Some(id) => Some((id, found_object(e).insert("id"@, json_string(id)))),
        None => None,
    }
}

/// The articles the entries hold, in the entries' order.
pub open spec fn article_records(s: Seq<ArticleEntry>) -> Seq<(Seq<char>, Map<Seq<char>, serde_json::Value>)>
    decreases s.len(),
{
    if s.len() == 0 {
        Seq::empty()
    } else {
        let before = article_records(s.drop_last());
        match article_record(s.last()) {
            Some(a) => before.push(a),
            None => before,
        }
    }
}

/// An article as its id and what its metadata holds.
pub open spec fn record_of(a: Article) -> (Seq<char>, Map<Seq<char>, serde_json::Value>) {
    (a.id@, object_entries(a.meta))
}

pub open spec fn records_of(v: Seq<Article>) -> Seq<(Seq<char>, Map<Seq<char>, serde_json::Value>)> {
    v.map_values(|a: Article| record_of(a))
}

/// Leaving out an entry that holds no article changes none of the others.
pub proof fn lemma_entry_without_article_changes_nothing(s: Seq<ArticleEntry>, i: int)
    requires
        0 <= i < s.len(),
        article_id(s[i]) is None,
    ensures
        article_records(s.remove(i)) == article_records(s),
    decreases s.len(),
{
    if i == s.len() - 1 {
        assert(s.remove(i) =~= s.drop_last());
    } else {
        lemma_entry_without_article_changes_nothing(s.drop_last(), i);
        assert(s.remove(i).drop_last() =~= s.drop_last().remove(i));
        assert(s.remove(i).last() == s.last());
    }
}

/// The metadata of an article's directory: the first file whose name marks it
/// as metadata and whose text is a JSON object.
pub fn find_metadata_in_dir(files: &Vec<MetadataFile>) -> (r: Option<serde_json::Map<String, serde_json::Value>>)
    ensures
        r is Some <==> dir_has_metadata(files@),
        r matches Some(m) ==> metadata_object(files@) == Some(object_entries(m)),
        r matches Some(m) ==> exists|i: int|
            0 <= i < files@.len() && usable_metadata(#[trigger] files@[i]) && (forall|j: int|
                0 <= j < i ==> !usable_metadata(#[trigger] files@[j])) && object_entries(m)
                == object_of(files@[i].content->Some_0@),
{
    let mut i: usize = 0;
    assert(files@.subrange(0, files@.len() as int) =~= files@);
    while i < files.len()
        invariant
            i <= files.len(),
            forall|j: int| 0 <= j < i ==> !usable_metadata(#[trigger] files@[j]),
            metadata_object(files@) == metadata_object(files@.subrange(i as int, files@.len() as int)),
        decreases files.len() - i,
    {
        let ghost tail = files@.subrange(i as int, files@.len() as int);
        assert(tail[0] == files@[i as int]);
        assert(tail.drop_first() =~= files@.subrange(i + 1, files@.len() as int));
        let f = &files[i];
        if is_metadata_name(f.name.as_str()) {
            match &f.content {
                Some(text) => {
                    let parsed = parse_object(text.as_str());
                    if parsed.is_some() {
                        assert(usable_metadata(files@[i as int]));
                        return parsed;
                    }
                },
                None => {},
            }
        }
        i = i + 1;
    }
    None
}

/// The article an entry holds, if it holds one, with its id set in its metadata.
pub fn entry_article(e: &ArticleEntry) -> (r: Option<Article>)
    ensures
        r matches Some(a) ==> article_record(*e) == Some(record_of(a)),
        r is None <==> article_record(*e) is None,
{
    match &e.kind {
        EntryKind::Dir(files) => {
            match find_metadata_in_dir(files) {
                Some(meta) => {
                    let mut meta = meta;
                    let id = e.name.clone();
                    set_id(&mut meta, id.clone());
                    Some(Article { id, meta })
                },
                None => None,
            }
        },
        EntryKind::File(content) => {
            if !is_flat_metadata_name(e.name.as_str()) {
                return None;
            }
            match content {
                Some(text) => {
                    match parse_object(text.as_str()) {
                        Some(meta) => {
                            let mut meta = meta;
                            let n = e.name.as_str().unicode_len();
                            let k = "-metadata.json".unicode_len();
                            let id = String::from_str(e.name.as_str().substring_char(0, n - k));
                            set_id(&mut meta, id.clone());
                            Some(Article { id, meta })
                        },
                        None => None,
                    }
                },
                None => None,
            }
        },
    }
}

/// The articles the entries hold, in the entries' order; entries without
/// usable metadata are left out.
pub fn collect_articles(entries: &Vec<ArticleEntry>) -> (r: Vec<Article>)
    ensures
        records_of(r@) == article_records(entries@),
{
    let mut out: Vec<Article> = Vec::new();
    let mut i: usize = 0;
    while i < entries.len()
        invariant
            i <= entries.len(),
            records_of(out@) == article_records(entries@.subrange(0, i as int)),
        decreases entries.len() - i,
    {
        let ghost before = out@;
        assert(entries@.subrange(0, i + 1).drop_last() =~= entries@.subrange(0, i as int));
        assert(entries@.subrange(0, i + 1).last() == entries@[i as int]);
        match entry_article(&entries[i]) {
            Some(a) => {
                out.push(a);
                assert(records_of(out@) =~= records_of(before).push(record_of(out@.last())));
            },
            None => {},
        }
        i = i + 1;
    }
    assert(entries@.subrange(0, entries@.len() as int) =~= entries@);
    out
}

/// The article index of a directory, given whether it exists and what listing
/// it gave: nothing when it does not exist, an error when it could not be
/// listed, else the articles of its entries ordered by name, the greatest first.
pub fn list_articles_native(dir_exists: bool, listing: Result<Vec<ArticleEntry>, String>) -> (r: Result<Vec<Article>, String>)
    ensures
        !dir_exists ==> (r matches Ok(v) && v@.len() == 0),
        dir_exists ==> match listing {
            Err(e) => r matches Err(m) && m@ == "Failed to read dir: "@ + e@,
            Ok(es) => r matches Ok(v) && exists|s: Seq<ArticleEntry>|
                #![trigger sorted_desc(s)]
                sorted_desc(s) && s.to_multiset() == es@.to_multiset() && records_of(v@) == article_records(s),
        },
{
    if !dir_exists {
        return Ok(Vec::new());
    }
    match listing {
        Err(e) => {
            let mut m = String::from_str("Failed to read dir: ");
            m.append(e.as_str());
            Err(m)
        },
        Ok(es) => {
            let ghost given = es@;
            let sorted = sort_entries_desc(es);
            let v = collect_articles(&sorted);
            assert(sorted_desc(sorted@) && sorted@.to_multiset() == given.to_multiset() 
                && records_of(v@) == article_records(sorted@));
            Ok(v)
        },
    }
}

/// A directory none of whose files is named as metadata holds no article, and
/// so is left out of the index.
pub proof fn lemma_dir_without_metadata_excluded(e: ArticleEntry)
    requires
        e.kind matches EntryKind::Dir(files) && forall|i: int|
            0 <= i < files@.len() ==> !metadata_name(#[trigger] files@[i].name@),
    ensures
        article_id(e) is None,
{
}

} // verus!
