//! Texts sent to the chat endpoint and URLs of the two services.
use vstd::prelude::*;
use crate::release::Asset;
use crate::routing::Route;

verus! {

/// Bytes in one mebibyte.
pub const MIB: u64 = 1024 * 1024;

/// The decimal digit `d` as a one-character text.
pub open spec fn digit_text(d: nat) -> Seq<char> {
    if d == 0 { "0"@ }
    else if d == 1 { "1"@ }
    else if d == 2 { "2"@ }
    else if d == 3 { "3"@ }
    else if d == 4 { "4"@ }
    else if d == 5 { "5"@ }
    else if d == 6 { "6"@ }
    else if d == 7 { "7"@ }
    else if d == 8 { "8"@ }
    else { "9"@ }
}

/// `n` written in decimal, without leading zeros.
pub open spec fn decimal(n: nat) -> Seq<char>
    decreases n,
{
    if n < 10 {
        digit_text(n)
    } else {
        decimal(n / 10) + digit_text(n % 10)
    }
}

fn digit_str(d: u64) -> (r: &'static str)
    requires
        d < 10,
    ensures
        r@ == digit_text(d as nat),
{
    if d == 0 { "0" }
    else if d == 1 { "1" }
    else if d == 2 { "2" }
    else if d == 3 { "3" }
    else if d == 4 { "4" }
    else if d == 5 { "5" }
    else if d == 6 { "6" }
    else if d == 7 { "7" }
    else if d == 8 { "8" }
    else { "9" }
}

/// Writes `n` in decimal.
pub fn decimal_string(n: u64) -> (r: String)
    ensures
        r@ == decimal(n as nat),
    decreases n,
{
    if n < 10 {
        String::from_str(digit_str(n))
    } else {
        let mut s = decimal_string(n / 10);
        s.append(digit_str(n % 10));
        s
    }
}

/// `size` bytes in hundredths of a mebibyte, rounded to nearest with ties
/// to even.
pub open spec fn hundredths_of_mib(size: nat) -> nat {
    let n = size * 100;
    let q = n / (MIB as nat);
    let rem = n % (MIB as nat);
    if 2 * rem > MIB as nat || (2 * rem == MIB as nat && q % 2 == 1) {
        q + 1
    } else {
        q
    }
}

/// Hundredths of a mebibyte in `size` bytes, rounded half to even.
pub fn size_in_hundredths_of_mib(size: u64) -> (r: u64)
    ensures
        r as nat == hundredths_of_mib(size as nat),
{
    let n: u128 = (size as u128) * 100;
    let q: u128 = n / (MIB as u128);
    let rem: u128 = n % (MIB as u128);
    assert(q <= n / 1048576);
    assert(q < 0xffff_ffff_ffff_0000u128) by {
        assert(n <= 0xffff_ffff_ffff_ffffu128 * 100);
    }
    if 2 * rem > MIB as u128 || (2 * rem == MIB as u128 && q % 2 == 1) {
        (q + 1) as u64
    } else {
        q as u64
    }
}

/// `h` hundredths written with two decimals: `1234` as `12.34`.
pub open spec fn two_decimals(h: nat) -> Seq<char> {
    decimal(h / 100) + "."@ + digit_text((h % 100) / 10) + digit_text(h % 10)
}

/// Caption of an uploaded asset: its name and its size in MB with two
/// decimals.
pub open spec fn caption_text(name: Seq<char>, size: nat) -> Seq<char> {
    name + " ("@ + two_decimals(hundredths_of_mib(size)) + " MB)"@
}

/// Renders the caption of an uploaded asset, as `app.apk (12.34 MB)`.
pub fn upload_caption(name: &str, size: u64) -> (r: String)
    ensures
        r@ == caption_text(name@, size as nat),
{
    let h = size_in_hundredths_of_mib(size);
    let mut s = String::from_str(name);
    s.append(" (");
    let whole = decimal_string(h / 100);
    s.append(whole.as_str());
    s.append(".");
    s.append(digit_str((h % 100) / 10));
    s.append(digit_str(h % 10));
    s.append(" MB)");
    s
}

/// The host's "latest release" endpoint for a repository `owner/name`.
pub open spec fn release_url_text(repo: Seq<char>) -> Seq<char> {
    "https://api.github.com/repos/"@ + repo + "/releases/latest"@
}

/// Renders the "latest release" endpoint for a repository.
pub fn latest_release_url(repo: &str) -> (r: String)
    ensures
        r@ == release_url_text(repo@),
{
    let mut s = String::from_str("https://api.github.com/repos/");
    s.append(repo);
    s.append("/releases/latest");
    s
}

/// The bot endpoint for one method of the messaging API.
pub open spec fn bot_url_text(token: Seq<char>, method: Seq<char>) -> Seq<char> {
    "https://api.telegram.org/bot"@ + token + "/"@ + method
}

/// Renders the endpoint that sends a text message.
pub fn send_message_url(token: &str) -> (r: String)
    ensures
        r@ == bot_url_text(token@, "sendMessage"@),
{
    let mut s = String::from_str("https://api.telegram.org/bot");
    s.append(token);
    s.append("/");
    s.append("sendMessage");
    s
}

/// Renders the endpoint that uploads a document.
pub fn send_document_url(token: &str) -> (r: String)
    ensures
        r@ == bot_url_text(token@, "sendDocument"@),
{
    let mut s = String::from_str("https://api.telegram.org/bot");
    s.append(token);
    s.append("/");
    s.append("sendDocument");
    s
}

/// Characters that the chat's Markdown mode reads as markup.
pub open spec fn is_markup(c: char) -> bool {
    c == '_' || c == '*' || c == '`' || c == '['
}

/// `s` with a backslash before each markup character.
pub open spec fn escaped(s: Seq<char>) -> Seq<char>
    decreases s.len(),
{
    if s.len() == 0 {
        Seq::empty()
    } else {
        let c = s.last();
        escaped(s.drop_last()) + if is_markup(c) { seq!['\\', c] } else { seq![c] }
    }
}

/// Escapes markup characters so that `s` shows as plain text in a message.
pub fn escape_markdown(s: &str) -> (r: String)
    ensures
        r@ == escaped(s@),
{
    let mut r = String::new();
    let n = s.unicode_len();
    let mut i: usize = 0;
    while i < n
        invariant
            n == s@.len(),
            i <= n,
            r@ == escaped(s@.take(i as int)),
        decreases n - i,
    {
        let c = s.get_char(i);
        let ghost before = r@;
        if c == '_' || c == '*' || c == '`' || c == '[' {
            proof {
                reveal_strlit("\\");
            }
            r.append("\\");
        }
        r.append(s.substring_char(i, i + 1));
        assert(s@.take(i + 1).drop_last() =~= s@.take(i as int));
        assert(r@ =~= escaped(s@.take(i + 1)));
        i = i + 1;
    }
    assert(s@.take(n as int) =~= s@);
    r
}

/// One linked asset: a markdown link and a copy-pasteable retrieval command.
/// The link text is escaped; the command sits in a code block, verbatim.
pub open spec fn link_entry_text(name: Seq<char>, url: Seq<char>) -> Seq<char> {
    "\u{1f517} ["@ + escaped(name) + "]("@ + url + ")\n"@
        + "\n\u{1f9f2} curl command:\n```\ncurl -L --http1.1 -A \"Mozilla/5.0\" -o "@ + name + " "@ + url
        + "\n```\n"@
}

/// Renders the entry of one linked asset.
pub fn link_entry(name: &str, url: &str) -> (r: String)
    ensures
        r@ == link_entry_text(name@, url@),
{
    let mut s = String::from_str("\u{1f517} [");
    let shown = escape_markdown(name);
    s.append(shown.as_str());
    s.append("](");
    s.append(url);
    s.append(")\n");
    s.append("\n\u{1f9f2} curl command:\n```\ncurl -L --http1.1 -A \"Mozilla/5.0\" -o ");
    s.append(name);
    s.append(" ");
    s.append(url);
    s.append("\n```\n");
    s
}

/// First line of the aggregated message of a repository's new release.
pub open spec fn header_text(repo: Seq<char>, tag: Seq<char>) -> Seq<char> {
    "\u{1f680} New Release from *"@ + escaped(repo) + "*: *"@ + escaped(tag) + "*\n\n"@
}

/// The entries of the first `n` assets that are routed to the link path,
/// in release order.
pub open spec fn link_entries_text(assets: Seq<Asset>, routes: Seq<Route>, n: nat) -> Seq<char>
    decreases n,
{
    if n == 0 {
        Seq::empty()
    } else {
        let i = (n - 1) as int;
        link_entries_text(assets, routes, (n - 1) as nat) + if routes[i] == Route::Link {
            link_entry_text(assets[i].name@, assets[i].browser_download_url@)
        } else {
            Seq::empty()
        }
    }
}

/// Whether any of the first `n` assets is routed to the link path.
pub open spec fn any_link(routes: Seq<Route>, n: nat) -> bool {
    exists|i: int| 0 <= i < n && routes[i] == Route::Link
}

/// The aggregated message of a release: `None` when no asset is linked,
/// else the header followed by every linked asset's entry.
pub open spec fn link_message_text(repo: Seq<char>, tag: Seq<char>, assets: Seq<Asset>, routes: Seq<Route>) -> Option<Seq<char>> {
    if any_link(routes, assets.len()) {
        Some(header_text(repo, tag) + link_entries_text(assets, routes, assets.len()))
    } else {
        None
    }
}

/// Builds the single text message of a release from the route chosen for
/// each asset (`routes[i]` for `assets[i]`).
pub fn link_message(repo: &str, tag: &str, assets: &Vec<Asset>, routes: &Vec<Route>) -> (r: Option<String>)
    requires
        routes@.len() == assets@.len(),
    ensures
        r matches Some(m) ==> link_message_text(repo@, tag@, assets@, routes@) == Some(m@),
        r is None ==> link_message_text(repo@, tag@, assets@, routes@) is None,
{
    let mut s = String::from_str("\u{1f680} New Release from *");
    let shown_repo = escape_markdown(repo);
    s.append(shown_repo.as_str());
    s.append("*: *");
    let shown_tag = escape_markdown(tag);
    s.append(shown_tag.as_str());
    s.append("*\n\n");
    let mut linked = false;
    let mut i: usize = 0;
    while i < assets.len()
        invariant
            i <= assets@.len(),
            routes@.len() == assets@.len(),
            s@ == header_text(repo@, tag@) + link_entries_text(assets@, routes@, i as nat),
            linked == any_link(routes@, i as nat),
        decreases assets@.len() - i,
    {
        if routes[i] == Route::Link {
            let entry = link_entry(assets[i].name.as_str(), assets[i].browser_download_url.as_str());
            s.append(entry.as_str());
            linked = true;
        }
        proof {
            assert(any_link(routes@, (i + 1) as nat) == (any_link(routes@, i as nat) || routes@[i as int] == Route::Link));
        }
        i = i + 1;
    }
    if linked {
        Some(s)
    } else {
        None
    }
}

} // verus!
