//! The assets that are built into the program.
use crate::text::{chars_eq, chars_of};
use vstd::prelude::*;
use vstd::string::StringSliceAdditionalSpecFns;

verus! {

/// The page that the server shows: it lists a directory and links to what
/// the directory holds.
pub const INDEX_HTML: &'static str = "<!DOCTYPE html>
<html lang=\"en\">
<head>
    <meta charset=\"UTF-8\">
    <meta name=\"viewport\" content=\"width=device-width, initial-scale=1.0\">
    <title>Files</title>
</head>
<body>
    <h1 id=\"way\"></h1>
    <ul id=\"files\"></ul>
    <script src=\"/static/script.js\"></script>
</body>
</html>
";

/// The script of the page.
pub const SCRIPT_JS: &'static str = "async function list(path) {
    const response = await fetch('/api/directory?path=' + encodeURIComponent(path));
    const listing = await response.json();
    document.getElementById('way').textContent =
        listing.paths.map((part) => part.part_name).join('/');
    const files = document.getElementById('files');
    files.replaceChildren();
    for (const file of listing.files) {
        const item = document.createElement('li');
        const link = document.createElement('a');
        link.textContent = file.name + ' (' + file.size + ', ' + file.last_modified + ')';
        if (file.file_type === 'Directory') {
            link.href = '#';
            link.onclick = () => list(file.path);
        } else {
            link.href = '/api/files?path=' + encodeURIComponent(file.path);
        }
        item.appendChild(link);
        files.appendChild(item);
    }
}
list('.');
";

/// The mapping that results from inserting `entries` in order.
pub open spec fn assets_of(entries: Seq<(Seq<char>, Seq<u8>)>) -> Map<Seq<char>, Seq<u8>>
    decreases entries.len(),
{
    if entries.len() == 0 {
        Map::empty()
    } else {
        assets_of(entries.drop_last()).insert(entries.last().0, entries.last().1)
    }
}

/// File names and the bytes of the files.
#[derive(Debug)]
pub struct StaticFiles {
    content: Vec<(String, &'static [u8])>,
}

impl StaticFiles {
    /// The entries in the order in which they were added.
    pub closed spec fn entries(self) -> Seq<(Seq<char>, Seq<u8>)> {
        Seq::new(self.content@.len(), |i: int| (self.content@[i].0@, self.content@[i].1@))
    }
}

impl View for StaticFiles {
    type V = Map<Seq<char>, Seq<u8>>;

    closed spec fn view(&self) -> Map<Seq<char>, Seq<u8>> {
        assets_of(self.entries())
    }
}

impl StaticFiles {
    /// The assets that are built into the library: the page and its script.
    pub open spec fn built_in() -> Map<Seq<char>, Seq<u8>> {
        Map::empty().insert("script.js"@, SCRIPT_JS.spec_bytes()).insert(
            "index.html"@,
            INDEX_HTML.spec_bytes(),
        )
    }

    /// The two names of the built-in assets differ, and the bundle holds
    /// these two and no other.
    pub proof fn lemma_built_in()
        ensures
            "script.js"@ != "index.html"@,
            Self::built_in().dom() =~= set!["script.js"@, "index.html"@],
            Self::built_in()["index.html"@] == INDEX_HTML.spec_bytes(),
            Self::built_in()["script.js"@] == SCRIPT_JS.spec_bytes(),
    {
        reveal_strlit("script.js");
        reveal_strlit("index.html");
        assert("script.js"@.len() == 9 && "index.html"@.len() == 10);
    }

    /// The bundle of the built-in assets: `script.js` and `index.html`, and
    /// no other file.
    pub fn new() -> (r: Self)
        ensures
            r@ == Self::built_in(),
    {
        StaticFiles::empty().with_file("script.js", SCRIPT_JS.as_bytes()).with_file(
            "index.html",
            INDEX_HTML.as_bytes(),
        )
    }

    /// A bundle without files.
    pub fn empty() -> (r: Self)
        ensures
            r@ == Map::<Seq<char>, Seq<u8>>::empty(),
    {
        let r = StaticFiles { content: Vec::new() };
        assert(r.entries() =~= Seq::empty());
        r
    }

    /// This bundle with `bytes` under `name`, in place of what stood there.
    pub fn with_file(self, name: &str, bytes: &'static [u8]) -> (r: Self)
        ensures
            r@ == self@.insert(name@, bytes@),
    {
        let mut r = self;
        let ghost before = r.entries();
        r.content.push((name.to_owned(), bytes));
        assert(r.entries() =~= before.push((name@, bytes@)));
        assert(r.entries().drop_last() =~= before);
        r
    }

    /// The bytes of the file named `file_name`.
    pub fn get(&self, file_name: &str) -> (r: Result<&'static [u8], String>)
        ensures
            self@.contains_key(file_name@) ==> (r matches Ok(bytes) && bytes@ == self@[file_name@]),
            !self@.contains_key(file_name@) ==> (r matches Err(m) && m@ == "File not found"@),
    {
        let wanted = chars_of(file_name);
        let ghost all = self.entries();
        let mut i: usize = self.content.len();
        assert(all.take(i as int) =~= all);
        while i > 0
            invariant
                i <= self.content@.len(),
                all == self.entries(),
                wanted@ == file_name@,
                self@.contains_key(file_name@) <==> assets_of(all.take(i as int)).contains_key(
                    file_name@,
                ),
                self@.contains_key(file_name@) ==> self@[file_name@] == assets_of(
                    all.take(i as int),
                )[file_name@],
            decreases i,
        {
            i -= 1;
            let entry = &self.content[i];
            let name = chars_of(entry.0.as_str());
            proof {
                let upto = all.take(i + 1);
                assert(upto.drop_last() =~= all.take(i as int));
                assert(upto.last() == (entry.0@, entry.1@));
            }
            if chars_eq(name.as_slice(), wanted.as_slice()) {
                return Ok(entry.1);
            }
        }
        assert(all.take(0) =~= Seq::empty());
        Err("File not found".to_owned())
    }
}

impl Default for StaticFiles {
    fn default() -> (r: Self)
        ensures
            r@ == StaticFiles::built_in(),
    {
        StaticFiles::new()
    }
}

} // verus!
