//! Provisioning XML for Wired `AutoConfig`: the `EapHostConfig` document that
//! selects our method and carries the profile, and the LAN profile around it.
use crate::eaphost::config_xml::blob_to_xml;
use crate::eaphost::markup::{
    closes_itself, closing, element, lemma_between_tags, lemma_both_close, lemma_cut,
    lemma_declaration_closes, lemma_element_closes, lemma_grouping, lemma_marks_none,
    lemma_plain_closes, lemma_well_formed, marks_none, opening, plain, well_formed,
};
use crate::eaphost::profile_tags::{
    lemma_attributes, lemma_contents, lemma_host_back, lemma_host_front, lemma_host_inner,
    lemma_host_middle, lemma_host_names, lemma_lan_back, lemma_lan_front, lemma_lan_names,
};
use crate::eaphost::{USG_AUTHOR_ID, USG_TYPE_ID};
use crate::text::{decimal, stands};
use vstd::prelude::*;
use vstd::string::StringExecFns;

verus! {

/// The `EapHostConfig` document around a profile: our method's type and author,
/// then the profile's envelope as the configuration.
pub open spec fn host_config(blob: Seq<u8>) -> Seq<char> {
    "<EapHostConfig xmlns=\"http://www.microsoft.com/provisioning/EapHostConfig\"><EapMethod><Type xmlns=\"http://www.microsoft.com/provisioning/EapCommon\">"@
        + crate::text::decimal_text(USG_TYPE_ID as nat)
        + "</Type><VendorId xmlns=\"http://www.microsoft.com/provisioning/EapCommon\">0</VendorId><VendorType xmlns=\"http://www.microsoft.com/provisioning/EapCommon\">0</VendorType><AuthorId xmlns=\"http://www.microsoft.com/provisioning/EapCommon\">"@
        + crate::text::decimal_text(USG_AUTHOR_ID as nat) + "</AuthorId></EapMethod><Config>"@
        + crate::eaphost::config_xml::envelope(blob) + "</Config></EapHostConfig>"@
}

/// The wired LAN profile around a profile: 802.1X enabled, machine
/// authentication, our method.
pub open spec fn lan_profile(blob: Seq<u8>) -> Seq<char> {
    "<?xml version=\"1.0\"?><LANProfile xmlns=\"http://www.microsoft.com/networking/LAN/profile/v1\"><MSM><security><OneXEnforced>false</OneXEnforced><OneXEnabled>true</OneXEnabled><OneX xmlns=\"http://www.microsoft.com/networking/OneX/v1\"><authMode>machine</authMode><EAPConfig>"@
        + host_config(blob) + "</EAPConfig></OneX></security></MSM></LANProfile>"@
}

/// The `EapHostConfig` document that names our method and embeds the profile.
pub fn eap_host_config_xml(connection_blob: &[u8]) -> (xml: String)
    ensures
        xml@ == host_config(connection_blob@),
{
    let mut xml: String = String::new();
    xml.append(
        "<EapHostConfig xmlns=\"http://www.microsoft.com/provisioning/EapHostConfig\"><EapMethod><Type xmlns=\"http://www.microsoft.com/provisioning/EapCommon\">",
    );
    xml.append(decimal(USG_TYPE_ID as u64).as_str());
    xml.append(
        "</Type><VendorId xmlns=\"http://www.microsoft.com/provisioning/EapCommon\">0</VendorId><VendorType xmlns=\"http://www.microsoft.com/provisioning/EapCommon\">0</VendorType><AuthorId xmlns=\"http://www.microsoft.com/provisioning/EapCommon\">",
    );
    xml.append(decimal(USG_AUTHOR_ID as u64).as_str());
    xml.append("</AuthorId></EapMethod><Config>");
    xml.append(blob_to_xml(connection_blob).as_str());
    xml.append("</Config></EapHostConfig>");
    assert(xml@ =~= host_config(connection_blob@));
    xml
}

/// A wired LAN profile that enables 802.1X with machine authentication and our
/// method.
pub fn lan_profile_xml(connection_blob: &[u8]) -> (xml: String)
    ensures
        xml@ == lan_profile(connection_blob@),
{
    let mut xml: String = String::new();
    xml.append(
        "<?xml version=\"1.0\"?><LANProfile xmlns=\"http://www.microsoft.com/networking/LAN/profile/v1\"><MSM><security><OneXEnforced>false</OneXEnforced><OneXEnabled>true</OneXEnabled><OneX xmlns=\"http://www.microsoft.com/networking/OneX/v1\"><authMode>machine</authMode><EAPConfig>",
    );
    xml.append(eap_host_config_xml(connection_blob).as_str());
    xml.append("</EAPConfig></OneX></security></MSM></LANProfile>");
    assert(xml@ =~= lan_profile(connection_blob@));
    xml
}

/// The `EapHostConfig` document is one element: `EapMethod` with the method's type, vendor
/// and author, one element each, then `Config` with the profile's envelope as its whole
/// content.
pub proof fn law_host_config_has_its_structure(blob: Seq<u8>)
    ensures
        host_config(blob) == element(
            "EapHostConfig"@,
            " xmlns=\"http://www.microsoft.com/provisioning/EapHostConfig\""@,
            element(
                "EapMethod"@,
                ""@,
                element("Type"@, common(), crate::text::decimal_text(55)) + element(
                    "VendorId"@,
                    common(),
                    "0"@,
                ) + element("VendorType"@, common(), "0"@) + element(
                    "AuthorId"@,
                    common(),
                    crate::text::decimal_text(192000),
                ),
            ) + element(
                "Config"@,
                ""@,
                element("UsgTeapConfigBlob"@, ""@, crate::text::hex_text(blob)),
            ),
        ),
{
    lemma_host_front();
    lemma_host_middle();
    lemma_host_inner();
    lemma_host_back();
    lemma_envelope_is_element(blob);
    let content = crate::eaphost::config_xml::envelope(blob);
    let kind = crate::text::decimal_text(55);
    let author = crate::text::decimal_text(192000);
    let host_ns = " xmlns=\"http://www.microsoft.com/provisioning/EapHostConfig\""@;
    let host_open = opening("EapHostConfig"@, host_ns);
    let front = host_open + opening("EapMethod"@, ""@);
    let type_ = element("Type"@, common(), kind);
    let vendor = element("VendorId"@, common(), "0"@);
    let vendor_type = element("VendorType"@, common(), "0"@);
    let author_ = element("AuthorId"@, common(), author);
    let author_open = opening("AuthorId"@, common());
    let middle = vendor + (vendor_type + author_open);
    lemma_vendors(author_open);
    lemma_between_tags(front, "Type"@, common(), kind, middle);
    let upto = front + type_ + vendor + vendor_type;
    assert(front + type_ + middle == upto + author_open) by {
        lemma_grouping(front + type_, vendor, vendor_type + author_open);
        lemma_grouping(front + type_ + vendor, vendor_type, author_open);
    }
    let inner = closing("EapMethod"@) + opening("Config"@, ""@);
    lemma_between_tags(upto, "AuthorId"@, common(), author, inner);
    let methods = type_ + vendor + vendor_type + author_;
    assert(upto + author_ == front + methods) by {
        lemma_grouping(front, type_, vendor);
        lemma_grouping(front, type_ + vendor, vendor_type);
        lemma_grouping(front, type_ + vendor + vendor_type, author_);
    }
    lemma_between_tags(host_open, "EapMethod"@, ""@, methods, opening("Config"@, ""@));
    let method = element("EapMethod"@, ""@, methods);
    lemma_between_tags(
        host_open + method,
        "Config"@,
        ""@,
        content,
        closing("EapHostConfig"@),
    );
    lemma_grouping(host_open, method, element("Config"@, ""@, content));
}

/// The namespace of the elements that name a method.
pub open spec fn common() -> Seq<char> {
    " xmlns=\"http://www.microsoft.com/provisioning/EapCommon\""@
}

proof fn lemma_vendors(rest: Seq<char>)
    ensures
        opening("VendorId"@, common()) + ("0"@ + (closing("VendorId"@) + (opening(
            "VendorType"@,
            common(),
        ) + ("0"@ + (closing("VendorType"@) + rest))))) == element("VendorId"@, common(), "0"@) + (
        element("VendorType"@, common(), "0"@) + rest),
{
    let o = opening("VendorType"@, common());
    let c = closing("VendorType"@);
    assert(o + ("0"@ + (c + rest)) =~= element("VendorType"@, common(), "0"@) + rest);
    let p = opening("VendorId"@, common());
    let d = closing("VendorId"@);
    let more = element("VendorType"@, common(), "0"@) + rest;
    assert(p + ("0"@ + (d + more)) =~= element("VendorId"@, common(), "0"@) + more);
}

proof fn lemma_envelope_is_element(blob: Seq<u8>)
    ensures
        crate::eaphost::config_xml::envelope(blob) == element(
            "UsgTeapConfigBlob"@,
            ""@,
            crate::text::hex_text(blob),
        ),
{
    reveal_strlit("");
    assert(crate::eaphost::config_xml::envelope(blob) =~= element(
        "UsgTeapConfigBlob"@,
        ""@,
        crate::text::hex_text(blob),
    ));
}

/// The LAN profile is a declaration and one element, `LANProfile` around `MSM` around
/// `security`: 802.1X not enforced but enabled, then `OneX` with machine authentication
/// and `EAPConfig`, whose whole content is the `EapHostConfig` document.
pub proof fn law_lan_profile_has_its_structure(blob: Seq<u8>)
    ensures
        lan_profile(blob) == "<?xml version=\"1.0\"?>"@ + element(
            "LANProfile"@,
            " xmlns=\"http://www.microsoft.com/networking/LAN/profile/v1\""@,
            element(
                "MSM"@,
                ""@,
                element(
                    "security"@,
                    ""@,
                    element("OneXEnforced"@, ""@, "false"@) + element("OneXEnabled"@, ""@, "true"@)
                        + element(
                        "OneX"@,
                        " xmlns=\"http://www.microsoft.com/networking/OneX/v1\""@,
                        element("authMode"@, ""@, "machine"@) + element(
                            "EAPConfig"@,
                            ""@,
                            host_config(blob),
                        ),
                    ),
                ),
            ),
        ),
{
    lemma_lan_front();
    lemma_lan_back();
    let host = host_config(blob);
    let lan_ns = " xmlns=\"http://www.microsoft.com/networking/LAN/profile/v1\""@;
    let one_x_ns = " xmlns=\"http://www.microsoft.com/networking/OneX/v1\""@;
    let declaration = "<?xml version=\"1.0\"?>"@;
    let outer = declaration + opening("LANProfile"@, lan_ns) + opening("MSM"@, ""@);
    let front = outer + opening("security"@, ""@);
    let enforced = element("OneXEnforced"@, ""@, "false"@);
    let enabled = element("OneXEnabled"@, ""@, "true"@);
    let mode = element("authMode"@, ""@, "machine"@);
    let eap = element("EAPConfig"@, ""@, host);
    lemma_between_tags(front, "OneXEnforced"@, ""@, "false"@, ""@);
    lemma_between_tags(front + enforced, "OneXEnabled"@, ""@, "true"@, ""@);
    let settings = front + enforced + enabled;
    let open_x = settings + opening("OneX"@, one_x_ns);
    lemma_between_tags(open_x, "authMode"@, ""@, "machine"@, ""@);
    let back = closing("security"@) + (closing("MSM"@) + closing("LANProfile"@));
    lemma_between_tags(open_x + mode, "EAPConfig"@, ""@, host, closing("OneX"@) + back);
    lemma_grouping(open_x, mode, eap);
    lemma_between_tags(settings, "OneX"@, one_x_ns, mode + eap, back);
    let one_x = element("OneX"@, one_x_ns, mode + eap);
    let all = enforced + enabled + one_x;
    assert(settings + one_x == front + all) by {
        lemma_grouping(front, enforced, enabled);
        lemma_grouping(front, enforced + enabled, one_x);
    }
    lemma_between_tags(
        outer,
        "security"@,
        ""@,
        all,
        closing("MSM"@) + closing("LANProfile"@),
    );
    let security = element("security"@, ""@, all);
    lemma_between_tags(
        declaration + opening("LANProfile"@, lan_ns),
        "MSM"@,
        ""@,
        security,
        closing("LANProfile"@),
    );
    lemma_between_tags(
        declaration,
        "LANProfile"@,
        lan_ns,
        element("MSM"@, ""@, security),
        ""@,
    );
}

proof fn lemma_digits_close(n: nat)
    ensures
        closes_itself(crate::text::decimal_text(n)),
{
    lemma_digits_are_plain(n);
    lemma_plain_closes(crate::text::decimal_text(n));
}

proof fn lemma_digits_are_plain(n: nat)
    ensures
        plain(crate::text::decimal_text(n)),
    decreases n,
{
    if n >= 10 {
        lemma_digits_are_plain(n / 10);
    }
}

proof fn lemma_host_config_closes(blob: Seq<u8>)
    ensures
        closes_itself(host_config(blob)),
        closes_itself(crate::eaphost::config_xml::envelope(blob)),
{
    law_host_config_has_its_structure(blob);
    lemma_envelope_is_element(blob);
    lemma_host_names();
    lemma_attributes();
    lemma_contents();
    crate::eaphost::config_xml::law_hex_is_lowercase(blob);
    let digits = crate::text::hex_text(blob);
    assert(plain(digits));
    lemma_plain_closes(digits);
    lemma_element_closes("UsgTeapConfigBlob"@, ""@, digits);
    let envelope = crate::eaphost::config_xml::envelope(blob);
    let kind = element("Type"@, common(), crate::text::decimal_text(55));
    let vendor = element("VendorId"@, common(), "0"@);
    let vendor_type = element("VendorType"@, common(), "0"@);
    let author = element("AuthorId"@, common(), crate::text::decimal_text(192000));
    lemma_digits_close(55);
    lemma_digits_close(192000);
    lemma_element_closes("Type"@, common(), crate::text::decimal_text(55));
    lemma_element_closes("VendorId"@, common(), "0"@);
    lemma_element_closes("VendorType"@, common(), "0"@);
    lemma_element_closes("AuthorId"@, common(), crate::text::decimal_text(192000));
    lemma_both_close(kind, vendor);
    lemma_both_close(kind + vendor, vendor_type);
    lemma_both_close(kind + vendor + vendor_type, author);
    let methods = kind + vendor + vendor_type + author;
    lemma_element_closes("EapMethod"@, ""@, methods);
    lemma_element_closes("Config"@, ""@, envelope);
    lemma_both_close(element("EapMethod"@, ""@, methods), element("Config"@, ""@, envelope));
    lemma_element_closes(
        "EapHostConfig"@,
        " xmlns=\"http://www.microsoft.com/provisioning/EapHostConfig\""@,
        element("EapMethod"@, ""@, methods) + element("Config"@, ""@, envelope),
    );
}

/// The `EapHostConfig` document, and the envelope in it, are well-formed, whatever the
/// profile is.
pub proof fn law_host_config_is_well_formed(blob: &[u8], xml: String)
    requires
        call_ensures(eap_host_config_xml, (blob,), xml),
    ensures
        well_formed(xml@),
        well_formed(crate::eaphost::config_xml::envelope(blob@)),
{
    lemma_host_config_closes(blob@);
    lemma_well_formed(xml@);
    lemma_well_formed(crate::eaphost::config_xml::envelope(blob@));
}

/// The LAN profile is well-formed, whatever the profile is: every element that it opens is
/// closed, in reverse order, by a tag of the same name.
pub proof fn law_lan_profile_is_well_formed(blob: &[u8], xml: String)
    requires
        call_ensures(lan_profile_xml, (blob,), xml),
    ensures
        well_formed(xml@),
{
    law_lan_profile_has_its_structure(blob@);
    lemma_host_config_closes(blob@);
    lemma_lan_names();
    lemma_attributes();
    lemma_contents();
    let host = host_config(blob@);
    let mode = element("authMode"@, ""@, "machine"@);
    let eap = element("EAPConfig"@, ""@, host);
    lemma_element_closes("authMode"@, ""@, "machine"@);
    lemma_element_closes("EAPConfig"@, ""@, host);
    lemma_both_close(mode, eap);
    let one_x_ns = " xmlns=\"http://www.microsoft.com/networking/OneX/v1\""@;
    lemma_element_closes("OneX"@, one_x_ns, mode + eap);
    let enforced = element("OneXEnforced"@, ""@, "false"@);
    let enabled = element("OneXEnabled"@, ""@, "true"@);
    let one_x = element("OneX"@, one_x_ns, mode + eap);
    lemma_element_closes("OneXEnforced"@, ""@, "false"@);
    lemma_element_closes("OneXEnabled"@, ""@, "true"@);
    lemma_both_close(enforced, enabled);
    lemma_both_close(enforced + enabled, one_x);
    let security = enforced + enabled + one_x;
    lemma_element_closes("security"@, ""@, security);
    lemma_element_closes("MSM"@, ""@, element("security"@, ""@, security));
    let lan_ns = " xmlns=\"http://www.microsoft.com/networking/LAN/profile/v1\""@;
    let msm = element("MSM"@, ""@, element("security"@, ""@, security));
    lemma_element_closes("LANProfile"@, lan_ns, msm);
    lemma_declaration();
    lemma_both_close("<?xml version=\"1.0\"?>"@, element("LANProfile"@, lan_ns, msm));
    lemma_well_formed(xml@);
}

proof fn lemma_declaration()
    ensures
        closes_itself("<?xml version=\"1.0\"?>"@),
{
    let inside = "?xml version=\"1.0\"?"@;
    reveal_strlit("?xml version=\"1.0\"?");
    reveal_with_fuel(marks_none, 20);
    lemma_marks_none(inside, true, 19);
    lemma_declaration_closes(inside);
    let whole = "<?xml version=\"1.0\"?>"@;
    let part = "<"@ + inside + ">"@;
    reveal_strlit("<?xml version=\"1.0\"?>");
    reveal_strlit("<");
    reveal_strlit(">");
    assert(part.len() == 21);
    assert(stands(whole, 0, part, 21)) by {
        reveal_with_fuel(stands, 22);
    }
    lemma_cut(whole, 0, part);
    assert(whole =~= part);
}

/// The two documents carry the profile and nothing else that varies: another profile makes
/// another document.
pub proof fn law_documents_tell_profiles_apart(a: &[u8], b: &[u8], x: String, y: String)
    requires
        call_ensures(lan_profile_xml, (a,), x),
        call_ensures(lan_profile_xml, (b,), y),
        x@ == y@,
    ensures
        a@ == b@,
{
    let host_a = host_config(a@);
    let host_b = host_config(b@);
    let envelope_a = crate::eaphost::config_xml::envelope(a@);
    let envelope_b = crate::eaphost::config_xml::envelope(b@);
    let digits_a = crate::text::hex_text(a@);
    let digits_b = crate::text::hex_text(b@);
    lemma_same_inside(
        "<?xml version=\"1.0\"?><LANProfile xmlns=\"http://www.microsoft.com/networking/LAN/profile/v1\"><MSM><security><OneXEnforced>false</OneXEnforced><OneXEnabled>true</OneXEnabled><OneX xmlns=\"http://www.microsoft.com/networking/OneX/v1\"><authMode>machine</authMode><EAPConfig>"@,
        host_a,
        host_b,
        "</EAPConfig></OneX></security></MSM></LANProfile>"@,
    );
    lemma_same_inside(
        "<EapHostConfig xmlns=\"http://www.microsoft.com/provisioning/EapHostConfig\"><EapMethod><Type xmlns=\"http://www.microsoft.com/provisioning/EapCommon\">"@
            + crate::text::decimal_text(USG_TYPE_ID as nat)
            + "</Type><VendorId xmlns=\"http://www.microsoft.com/provisioning/EapCommon\">0</VendorId><VendorType xmlns=\"http://www.microsoft.com/provisioning/EapCommon\">0</VendorType><AuthorId xmlns=\"http://www.microsoft.com/provisioning/EapCommon\">"@
            + crate::text::decimal_text(USG_AUTHOR_ID as nat) + "</AuthorId></EapMethod><Config>"@,
        envelope_a,
        envelope_b,
        "</Config></EapHostConfig>"@,
    );
    lemma_envelope_is_element(a@);
    lemma_envelope_is_element(b@);
    lemma_same_inside(
        opening("UsgTeapConfigBlob"@, ""@),
        digits_a,
        digits_b,
        closing("UsgTeapConfigBlob"@),
    );
    crate::text::lemma_hex_round_trip(a@);
    crate::text::lemma_hex_round_trip(b@);
}

proof fn lemma_same_inside(front: Seq<char>, a: Seq<char>, b: Seq<char>, back: Seq<char>)
    requires
        front + a + back == front + b + back,
    ensures
        a == b,
{
    let whole = front + a + back;
    assert(whole.len() == front.len() + a.len() + back.len());
    assert(whole.len() == front.len() + b.len() + back.len());
    assert(a =~= whole.subrange(front.len() as int, (front.len() + a.len()) as int));
    assert(b =~= whole.subrange(front.len() as int, (front.len() + b.len()) as int));
}

} // verus!
