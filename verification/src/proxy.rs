//! The proxy that Codex is started with.

use vstd::prelude::*;
use vstd::string::*;

use crate::text::{
    contains, contains_text, is_space, same_text, stands_at, starts_with, trim, trimmed,
    trimming_takes_off_white_space_only, trimming_twice_is_trimming_once,
};

verus! {

/// How Codex reaches the network.
#[derive(Debug)]
pub struct NetworkSettings {
    /// `system`, `none` or `custom`.
    pub mode: String,
    /// The proxy of the mode `custom`.
    pub address: String,
}

/// Whether an address names a kind of proxy that is supported.
pub open spec fn has_supported_scheme(address: Seq<char>) -> bool {
    ||| "http://"@.is_prefix_of(address)
    ||| "https://"@.is_prefix_of(address)
    ||| "socks5://"@.is_prefix_of(address)
}

/// An address with its scheme: `http` where it has none.
pub open spec fn with_scheme(address: Seq<char>) -> Seq<char> {
    if contains_text(address, "://"@) {
        address
    } else {
        "http://"@ + address
    }
}

/// The full address of a proxy, or a message that says what is wrong with it.
pub open spec fn proxy_address(address: Seq<char>) -> Result<Seq<char>, Seq<char>> {
    let address = trimmed(address);
    if address.len() == 0 {
        Err("请填写本地代理地址，例如 http://127.0.0.1:7890"@)
    } else if has_supported_scheme(with_scheme(address)) {
        Ok(with_scheme(address))
    } else {
        Err("代理地址仅支持 http、https 或 socks5"@)
    }
}

/// A result with a text or a message, seen as their characters.
pub open spec fn text_outcome(result: Result<String, String>) -> Result<Seq<char>, Seq<char>> {
    match result {
        Ok(text) => Ok(text@),
        Err(message) => Err(message@),
    }
}

/// Completes the address of a proxy.
pub fn normalize_proxy_address(address: &str) -> (result: Result<String, String>)
    ensures
        text_outcome(result) == proxy_address(address@),
{
    let address = trim(address);
    if address.is_empty() {
        return Err("请填写本地代理地址，例如 http://127.0.0.1:7890".to_owned());
    }
    let normalized = if contains(address, "://") {
        address.to_owned()
    } else {
        "http://".to_owned().concat(address)
    };
    if !(starts_with(normalized.as_str(), "http://") || starts_with(
        normalized.as_str(),
        "https://",
    ) || starts_with(normalized.as_str(), "socks5://")) {
        return Err("代理地址仅支持 http、https 或 socks5".to_owned());
    }
    Ok(normalized)
}

/// What stands in the beginning of a text stands in the text.
proof fn lemma_prefix_holds(front: Seq<char>, s: Seq<char>, part: Seq<char>, at: int)
    requires
        front.is_prefix_of(s),
        0 <= at,
        at + part.len() <= front.len(),
        forall|i: int| 0 <= i < part.len() ==> front[at + i] == part[i],
    ensures
        contains_text(s, part),
{
    assert forall|i: int| 0 <= i < part.len() implies s[at + i] == part[i] by {
        assert(s.subrange(0, front.len() as int)[at + i] == front[at + i]);
    }
    assert(s.subrange(at, at + part.len()) =~= part);
    assert(stands_at(s, part, at));
}

/// An address that was completed once is complete: it has a supported scheme,
/// and completing it again changes nothing.
pub proof fn completed_addresses_are_complete(address: Seq<char>)
    ensures
        proxy_address(address) matches Ok(full) ==> has_supported_scheme(full) && proxy_address(full)
            == Ok::<Seq<char>, Seq<char>>(full),
{
    if let Ok(full) = proxy_address(address) {
        let bare = trimmed(address);
        trimming_twice_is_trimming_once(address);
        reveal_strlit("http://");
        reveal_strlit("https://");
        reveal_strlit("socks5://");
        reveal_strlit("://");
        assert(full.last() == bare.last());
        assert(!is_space(full[0]) && !is_space(full.last()));
        assert(trimmed(full) == full);
        if "http://"@.is_prefix_of(full) {
            lemma_prefix_holds("http://"@, full, "://"@, 4);
        } else if "https://"@.is_prefix_of(full) {
            lemma_prefix_holds("https://"@, full, "://"@, 5);
        } else {
            lemma_prefix_holds("socks5://"@, full, "://"@, 6);
        }
        assert(contains_text(full, "://"@));
    }
}

/// A change to one environment variable.
#[derive(Debug)]
pub struct EnvChange {
    /// The variable.
    pub name: String,
    /// Its new value; none where the variable is removed.
    pub value: Option<String>,
}

/// A change, seen as its characters.
pub open spec fn change(name: Seq<char>, value: Option<Seq<char>>) -> (Seq<char>, Option<Seq<char>>) {
    (name, value)
}

/// The changes of a list, seen as their characters.
pub open spec fn changes(list: Seq<EnvChange>) -> Seq<(Seq<char>, Option<Seq<char>>)> {
    Seq::new(list.len(), |i: int| change(list[i].name@, crate::text::optional_text(list[i].value)))
}

/// The variables that name a proxy.
pub open spec fn proxy_variables() -> Seq<Seq<char>> {
    seq![
        "HTTP_PROXY"@,
        "HTTPS_PROXY"@,
        "ALL_PROXY"@,
        "http_proxy"@,
        "https_proxy"@,
        "all_proxy"@,
    ]
}

/// One change to each variable that names a proxy.
pub open spec fn to_each_proxy_variable(value: Option<Seq<char>>) -> Seq<
    (Seq<char>, Option<Seq<char>>),
> {
    Seq::new(6, |i: int| change(proxy_variables()[i], value))
}

/// The changes to the environment of Codex that a mode asks for, in their
/// order: none for the system's own settings; no proxy at all; or one proxy for
/// everything but this machine.
pub open spec fn proxy_changes(mode: Seq<char>, address: Seq<char>) -> Result<
    Seq<(Seq<char>, Option<Seq<char>>)>,
    Seq<char>,
> {
    if mode == "system"@ {
        Ok(Seq::empty())
    } else if mode == "none"@ {
        Ok(
            to_each_proxy_variable(None).push(change("NO_PROXY"@, Some("*"@))).push(
                change("no_proxy"@, Some("*"@)),
            ),
        )
    } else if mode == "custom"@ {
        match proxy_address(address) {
            Ok(full) => Ok(
                to_each_proxy_variable(Some(full)).push(
                    change("NO_PROXY"@, Some("localhost,127.0.0.1,::1"@)),
                ),
            ),
            Err(message) => Err(message),
        }
    } else {
        Err("代理模式无效"@)
    }
}

/// A result with changes or a message, seen as their characters.
pub open spec fn changes_outcome(result: Result<Vec<EnvChange>, String>) -> Result<
    Seq<(Seq<char>, Option<Seq<char>>)>,
    Seq<char>,
> {
    match result {
        Ok(list) => Ok(changes(list@)),
        Err(message) => Err(message@),
    }
}

/// The same change to each variable that names a proxy.
fn change_each(value: Option<&str>) -> (list: Vec<EnvChange>)
    ensures
        changes(list@) == to_each_proxy_variable(
            match value {
                Some(value) => Some(value@),
                None => None,
            },
        ),
{
    let names: [&str; 6] = [
        "HTTP_PROXY",
        "HTTPS_PROXY",
        "ALL_PROXY",
        "http_proxy",
        "https_proxy",
        "all_proxy",
    ];
    let mut list: Vec<EnvChange> = Vec::new();
    let ghost wanted: Option<Seq<char>> = match value {
        Some(value) => Some(value@),
        None => None,
    };
    let mut i: usize = 0;
    while i < 6
        invariant
            i <= 6,
            names@.len() == 6,
            forall|j: int| 0 <= j < 6 ==> (#[trigger] names@[j])@ == proxy_variables()[j],
            wanted == (match value {
                Some(value) => Some(value@),
                None => None,
            }),
            list@.len() == i,
            forall|j: int|
                0 <= j < i ==> (#[trigger] list@[j]).name@ == proxy_variables()[j]
                    && crate::text::optional_text(list@[j].value) == wanted,
        decreases 6 - i,
    {
        let value = match value {
            Some(value) => Some(value.to_owned()),
            None => None,
        };
        list.push(EnvChange { name: names[i].to_owned(), value });
        i = i + 1;
    }
    assert(changes(list@) =~= to_each_proxy_variable(wanted));
    list
}

/// What is changed in the environment of Codex before it is started.
pub fn configure_proxy(network: &NetworkSettings) -> (result: Result<Vec<EnvChange>, String>)
    ensures
        changes_outcome(result) == proxy_changes(network.mode@, network.address@),
{
    let mode = network.mode.as_str();
    if same_text(mode, "system") {
        let list: Vec<EnvChange> = Vec::new();
        assert(changes(list@) =~= Seq::empty());
        return Ok(list);
    }
    if same_text(mode, "none") {
        let mut list = change_each(None);
        list.push(EnvChange { name: "NO_PROXY".to_owned(), value: Some("*".to_owned()) });
        list.push(EnvChange { name: "no_proxy".to_owned(), value: Some("*".to_owned()) });
        assert(changes(list@) =~= to_each_proxy_variable(None).push(
            change("NO_PROXY"@, Some("*"@)),
        ).push(change("no_proxy"@, Some("*"@))));
        return Ok(list);
    }
    if same_text(mode, "custom") {
        let address = match normalize_proxy_address(network.address.as_str()) {
            Ok(address) => address,
            Err(message) => {
                return Err(message);
            },
        };
        let mut list = change_each(Some(address.as_str()));
        list.push(
            EnvChange {
                name: "NO_PROXY".to_owned(),
                value: Some("localhost,127.0.0.1,::1".to_owned()),
            },
        );
        assert(changes(list@) =~= to_each_proxy_variable(Some(address@)).push(
            change("NO_PROXY"@, Some("localhost,127.0.0.1,::1"@)),
        ));
        return Ok(list);
    }
    Err("代理模式无效".to_owned())
}

/// White space around an address does not count. An address without a scheme is
/// taken as one of `http`; one with the scheme `http`, `https` or `socks5` is
/// kept as it is; any other scheme is refused, and so is an address that is
/// empty.
pub proof fn addresses_are_completed(before: Seq<char>, address: Seq<char>, after: Seq<char>)
    requires
        forall|i: int| 0 <= i < before.len() ==> is_space(#[trigger] before[i]),
        forall|i: int| 0 <= i < after.len() ==> is_space(#[trigger] after[i]),
        address.len() > 0 ==> !is_space(address[0]) && !is_space(address.last()),
    ensures
        ({
            let given = before + address + after;
            &&& address.len() == 0 ==> proxy_address(given) == Err::<Seq<char>, Seq<char>>(
                "请填写本地代理地址，例如 http://127.0.0.1:7890"@,
            )
            &&& address.len() > 0 && !contains_text(address, "://"@) ==> proxy_address(given)
                == Ok::<Seq<char>, Seq<char>>("http://"@ + address)
            &&& "http://"@.is_prefix_of(address) || "https://"@.is_prefix_of(address)
                || "socks5://"@.is_prefix_of(address) ==> proxy_address(given) == Ok::<
                Seq<char>,
                Seq<char>,
            >(address)
            &&& contains_text(address, "://"@) && !"http://"@.is_prefix_of(address)
                && !"https://"@.is_prefix_of(address) && !"socks5://"@.is_prefix_of(address)
                ==> proxy_address(given) == Err::<Seq<char>, Seq<char>>(
                "代理地址仅支持 http、https 或 socks5"@,
            )
        }),
{
    trimming_takes_off_white_space_only(before, address, after);
    reveal_strlit("http://");
    reveal_strlit("https://");
    reveal_strlit("socks5://");
    reveal_strlit("://");
    if "http://"@.is_prefix_of(address) {
        lemma_prefix_holds("http://"@, address, "://"@, 4);
    }
    if "https://"@.is_prefix_of(address) {
        lemma_prefix_holds("https://"@, address, "://"@, 5);
    }
    if "socks5://"@.is_prefix_of(address) {
        lemma_prefix_holds("socks5://"@, address, "://"@, 6);
    }
    assert("http://"@.is_prefix_of("http://"@ + address)) by {
        assert(("http://"@ + address).subrange(0, "http://"@.len() as int) =~= "http://"@);
    }
    if contains_text(address, "://"@) {
        let at = choose|at: int| stands_at(address, "://"@, at);
        assert(address.len() > 0);
    }
}

/// With the system's own settings nothing is changed. Without a proxy, the six
/// variables that name one are removed, and no host is reached through one. With
/// a proxy of the user's own, all six are set to its full address, and only
/// this machine is reached without it. Any other way is refused.
pub proof fn each_way_changes_the_environment(mode: Seq<char>, address: Seq<char>)
    ensures
        proxy_changes("system"@, address) == Ok::<
            Seq<(Seq<char>, Option<Seq<char>>)>,
            Seq<char>,
        >(Seq::empty()),
        proxy_changes("none"@, address) == Ok::<Seq<(Seq<char>, Option<Seq<char>>)>, Seq<char>>(
            seq![
                ("HTTP_PROXY"@, None),
                ("HTTPS_PROXY"@, None),
                ("ALL_PROXY"@, None),
                ("http_proxy"@, None),
                ("https_proxy"@, None),
                ("all_proxy"@, None),
                ("NO_PROXY"@, Some("*"@)),
                ("no_proxy"@, Some("*"@)),
            ],
        ),
        proxy_address(address) matches Ok(full) ==> proxy_changes("custom"@, address) == Ok::<
            Seq<(Seq<char>, Option<Seq<char>>)>,
            Seq<char>,
        >(
            seq![
                ("HTTP_PROXY"@, Some(full)),
                ("HTTPS_PROXY"@, Some(full)),
                ("ALL_PROXY"@, Some(full)),
                ("http_proxy"@, Some(full)),
                ("https_proxy"@, Some(full)),
                ("all_proxy"@, Some(full)),
                ("NO_PROXY"@, Some("localhost,127.0.0.1,::1"@)),
            ],
        ),
        proxy_address(address) matches Err(message) ==> proxy_changes("custom"@, address) == Err::<
            Seq<(Seq<char>, Option<Seq<char>>)>,
            Seq<char>,
        >(message),
        mode != "system"@ && mode != "none"@ && mode != "custom"@ ==> proxy_changes(mode, address)
            == Err::<Seq<(Seq<char>, Option<Seq<char>>)>, Seq<char>>("代理模式无效"@),
{
    reveal_strlit("system");
    reveal_strlit("none");
    reveal_strlit("custom");
    assert("custom"@[0] == 'c' && "system"@[0] == 's' && "none"@[0] == 'n');
    assert(proxy_changes("none"@, address)->Ok_0 =~= seq![
        ("HTTP_PROXY"@, None),
        ("HTTPS_PROXY"@, None),
        ("ALL_PROXY"@, None),
        ("http_proxy"@, None),
        ("https_proxy"@, None),
        ("all_proxy"@, None),
        ("NO_PROXY"@, Some("*"@)),
        ("no_proxy"@, Some("*"@)),
    ]);
    if let Ok(full) = proxy_address(address) {
        assert(proxy_changes("custom"@, address)->Ok_0 =~= seq![
            ("HTTP_PROXY"@, Some(full)),
            ("HTTPS_PROXY"@, Some(full)),
            ("ALL_PROXY"@, Some(full)),
            ("http_proxy"@, Some(full)),
            ("https_proxy"@, Some(full)),
            ("all_proxy"@, Some(full)),
            ("NO_PROXY"@, Some("localhost,127.0.0.1,::1"@)),
        ]);
    }
}

/// The changes of a list are seen one by one, each with its variable and its
/// value.
pub proof fn changes_are_seen_as_they_are(list: Seq<EnvChange>, i: int)
    requires
        0 <= i < list.len(),
    ensures
        changes(list).len() == list.len(),
        changes(list)[i].0 == list[i].name@,
        list[i].value is Some <==> changes(list)[i].1 is Some,
        list[i].value matches Some(value) ==> changes(list)[i].1 == Some(value@),
{
}

} // verus!
