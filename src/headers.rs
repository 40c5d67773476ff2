use vstd::prelude::*;

verus! {

/// The headers sent with every direct fetch, by name and value. The browser
/// uses the same user agent.
pub open spec fn header_table() -> Seq<(Seq<char>, Seq<char>)> {
    seq![
        ("Accept"@, "text/html,application/xhtml+xml,application/xml;q=0.9,image/avif,image/webp,image/apng,*/*;q=0.8,application/signed-exchange;v=b3;q=0.7"@),
        ("Accept-Language"@, "en-US,en;q=0.9"@),
        ("Priority"@, "u=0, i"@),
        ("Sec-Fetch-Dest"@, "document"@),
        ("Sec-Fetch-Mode"@, "navigate"@),
        ("Sec-Fetch-Site"@, "none"@),
        ("Sec-Fetch-User"@, "?1"@),
        ("Upgrade-Insecure-Requests"@, "1"@),
        ("User-Agent"@, "Mozilla/5.0 (Windows NT 10.0; Win64; x64) AppleWebKit/537.36 (KHTML, like Gecko) Chrome/131.0.0.0 Safari/537.36"@),
    ]
}

/// The pairs of `h`, seen as text.
pub open spec fn pairs_view(h: Seq<(String, String)>) -> Seq<(Seq<char>, Seq<char>)> {
    h.map_values(|p: (String, String)| (p.0@, p.1@))
}

fn pair(name: &str, value: &str) -> (r: (String, String))
    ensures
        r.0@ == name@,
        r.1@ == value@,
{
    (name.to_owned(), value.to_owned())
}

/// The header set shared by the direct client and the browser tabs.
pub fn browser_headers() -> (r: Vec<(String, String)>)
    ensures
        pairs_view(r@) == header_table(),
{
    let r = vec![
        pair("Accept", "text/html,application/xhtml+xml,application/xml;q=0.9,image/avif,image/webp,image/apng,*/*;q=0.8,application/signed-exchange;v=b3;q=0.7"),
        pair("Accept-Language", "en-US,en;q=0.9"),
        pair("Priority", "u=0, i"),
        pair("Sec-Fetch-Dest", "document"),
        pair("Sec-Fetch-Mode", "navigate"),
        pair("Sec-Fetch-Site", "none"),
        pair("Sec-Fetch-User", "?1"),
        pair("Upgrade-Insecure-Requests", "1"),
        pair("User-Agent", "Mozilla/5.0 (Windows NT 10.0; Win64; x64) AppleWebKit/537.36 (KHTML, like Gecko) Chrome/131.0.0.0 Safari/537.36"),
    ];
    assert(pairs_view(r@) =~= header_table());
    r
}

/// The value of the first header of `headers` named `name`, if any.
pub fn header_value(headers: &Vec<(String, String)>, name: &str) -> (r: Option<String>)
    ensures
        match r {
            None => forall|i: int| 0 <= i < headers@.len() ==> #[trigger] headers@[i].0@ != name@,
            Some(v) => exists|i: int| {
                &&& 0 <= i < headers@.len()
                &&& #[trigger] headers@[i].0@ == name@
                &&& v@ == headers@[i].1@
                &&& forall|j: int| 0 <= j < i ==> headers@[j].0@ != name@
            },
        },
{
    let wanted = name.to_owned();
    let mut i: usize = 0;
    while i < headers.len()
        invariant
            0 <= i <= headers@.len(),
            wanted@ == name@,
            forall|j: int| 0 <= j < i ==> #[trigger] headers@[j].0@ != name@,
        decreases headers@.len() - i,
    {
        if headers[i].0 == wanted {
            let v = headers[i].1.clone();
            assert(headers@[i as int].0@ == name@);
            return Some(v);
        }
        i = i + 1;
    }
    None
}

/// The user agent of `headers`, which the browser tabs take over.
pub fn user_agent(headers: &Vec<(String, String)>) -> (r: Option<String>)
    ensures
        match r {
            None => forall|i: int| 0 <= i < headers@.len() ==> #[trigger] headers@[i].0@ != "User-Agent"@,
            Some(v) => exists|i: int| {
                &&& 0 <= i < headers@.len()
                &&& #[trigger] headers@[i].0@ == "User-Agent"@
                &&& v@ == headers@[i].1@
                &&& forall|j: int| 0 <= j < i ==> headers@[j].0@ != "User-Agent"@
            },
        },
{
    header_value(headers, "User-Agent")
}

} // verus!
