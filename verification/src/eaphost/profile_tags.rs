//! The tags in the fixed text of the provisioning documents: each stretch of that text
//! is spelled out as its opening tags, contents and closing tags.
use crate::eaphost::markup::{
    are_attributes, closes_itself, closing, is_name, lemma_cut, lemma_cut_closing,
    lemma_cut_opening, lemma_marks_none, lemma_plain_closes, marks_none, opening,
};
use crate::text::stands;
use vstd::prelude::*;

verus! {

#[verifier::spinoff_prover]
pub(crate) proof fn lemma_host_front()
    ensures
        "<EapHostConfig xmlns=\"http://www.microsoft.com/provisioning/EapHostConfig\"><EapMethod><Type xmlns=\"http://www.microsoft.com/provisioning/EapCommon\">"@ == opening("EapHostConfig"@, " xmlns=\"http://www.microsoft.com/provisioning/EapHostConfig\""@) + opening("EapMethod"@, ""@) + opening("Type"@, " xmlns=\"http://www.microsoft.com/provisioning/EapCommon\""@),
{
    let whole = "<EapHostConfig xmlns=\"http://www.microsoft.com/provisioning/EapHostConfig\"><EapMethod><Type xmlns=\"http://www.microsoft.com/provisioning/EapCommon\">"@;
    reveal_strlit("<EapHostConfig xmlns=\"http://www.microsoft.com/provisioning/EapHostConfig\"><EapMethod><Type xmlns=\"http://www.microsoft.com/provisioning/EapCommon\">");
    assert(whole.len() == 148);
    assert(whole.take(75) == whole.take(0) + opening("EapHostConfig"@, " xmlns=\"http://www.microsoft.com/provisioning/EapHostConfig\""@)) by {
        reveal_strlit("EapHostConfig");
        reveal_strlit(" xmlns=\"http://www.microsoft.com/provisioning/EapHostConfig\"");
        assert(stands(whole, 1, "EapHostConfig"@, 13)) by {
            reveal_with_fuel(stands, 14);
        }
        assert(stands(whole, 14, " xmlns=\"http://www.microsoft.com/provisioning/EapHostConfig\""@, 16)) by {
            reveal_with_fuel(stands, 17);
        }
        assert(stands(whole, 14, " xmlns=\"http://www.microsoft.com/provisioning/EapHostConfig\""@, 32)) by {
            reveal_with_fuel(stands, 17);
        }
        assert(stands(whole, 14, " xmlns=\"http://www.microsoft.com/provisioning/EapHostConfig\""@, 48)) by {
            reveal_with_fuel(stands, 17);
        }
        assert(stands(whole, 14, " xmlns=\"http://www.microsoft.com/provisioning/EapHostConfig\""@, 60)) by {
            reveal_with_fuel(stands, 13);
        }
        lemma_cut_opening(whole, 0, "EapHostConfig"@, " xmlns=\"http://www.microsoft.com/provisioning/EapHostConfig\""@);
    }
    assert(whole.take(86) == whole.take(75) + opening("EapMethod"@, ""@)) by {
        reveal_strlit("EapMethod");
        reveal_strlit("");
        assert(stands(whole, 76, "EapMethod"@, 9)) by {
            reveal_with_fuel(stands, 10);
        }
        assert(stands(whole, 85, ""@, 0)) by {
            reveal_with_fuel(stands, 1);
        }
        lemma_cut_opening(whole, 75, "EapMethod"@, ""@);
    }
    assert(whole.take(148) == whole.take(86) + opening("Type"@, " xmlns=\"http://www.microsoft.com/provisioning/EapCommon\""@)) by {
        reveal_strlit("Type");
        reveal_strlit(" xmlns=\"http://www.microsoft.com/provisioning/EapCommon\"");
        assert(stands(whole, 87, "Type"@, 4)) by {
            reveal_with_fuel(stands, 5);
        }
        assert(stands(whole, 91, " xmlns=\"http://www.microsoft.com/provisioning/EapCommon\""@, 16)) by {
            reveal_with_fuel(stands, 17);
        }
        assert(stands(whole, 91, " xmlns=\"http://www.microsoft.com/provisioning/EapCommon\""@, 32)) by {
            reveal_with_fuel(stands, 17);
        }
        assert(stands(whole, 91, " xmlns=\"http://www.microsoft.com/provisioning/EapCommon\""@, 48)) by {
            reveal_with_fuel(stands, 17);
        }
        assert(stands(whole, 91, " xmlns=\"http://www.microsoft.com/provisioning/EapCommon\""@, 56)) by {
            reveal_with_fuel(stands, 9);
        }
        lemma_cut_opening(whole, 86, "Type"@, " xmlns=\"http://www.microsoft.com/provisioning/EapCommon\""@);
    }
    assert(whole.take(0) + opening("EapHostConfig"@, " xmlns=\"http://www.microsoft.com/provisioning/EapHostConfig\""@) =~= opening("EapHostConfig"@, " xmlns=\"http://www.microsoft.com/provisioning/EapHostConfig\""@));
    assert(whole.take(148) =~= whole);
}

#[verifier::spinoff_prover]
pub(crate) proof fn lemma_host_middle()
    ensures
        "</Type><VendorId xmlns=\"http://www.microsoft.com/provisioning/EapCommon\">0</VendorId><VendorType xmlns=\"http://www.microsoft.com/provisioning/EapCommon\">0</VendorType><AuthorId xmlns=\"http://www.microsoft.com/provisioning/EapCommon\">"@ == closing("Type"@) + (opening("VendorId"@, " xmlns=\"http://www.microsoft.com/provisioning/EapCommon\""@) + ("0"@ + (closing("VendorId"@) + (opening("VendorType"@, " xmlns=\"http://www.microsoft.com/provisioning/EapCommon\""@) + ("0"@ + (closing("VendorType"@) + (opening("AuthorId"@, " xmlns=\"http://www.microsoft.com/provisioning/EapCommon\""@)))))))),
{
    let whole = "</Type><VendorId xmlns=\"http://www.microsoft.com/provisioning/EapCommon\">0</VendorId><VendorType xmlns=\"http://www.microsoft.com/provisioning/EapCommon\">0</VendorType><AuthorId xmlns=\"http://www.microsoft.com/provisioning/EapCommon\">"@;
    reveal_strlit("</Type><VendorId xmlns=\"http://www.microsoft.com/provisioning/EapCommon\">0</VendorId><VendorType xmlns=\"http://www.microsoft.com/provisioning/EapCommon\">0</VendorType><AuthorId xmlns=\"http://www.microsoft.com/provisioning/EapCommon\">");
    assert(whole.len() == 233);
    assert(whole.skip(0) == closing("Type"@) + whole.skip(7)) by {
        reveal_strlit("Type");
        assert(stands(whole, 2, "Type"@, 4)) by {
            reveal_with_fuel(stands, 5);
        }
        lemma_cut_closing(whole, 0, "Type"@);
    }
    assert(whole.skip(7) == opening("VendorId"@, " xmlns=\"http://www.microsoft.com/provisioning/EapCommon\""@) + whole.skip(73)) by {
        reveal_strlit("VendorId");
        reveal_strlit(" xmlns=\"http://www.microsoft.com/provisioning/EapCommon\"");
        assert(stands(whole, 8, "VendorId"@, 8)) by {
            reveal_with_fuel(stands, 9);
        }
        assert(stands(whole, 16, " xmlns=\"http://www.microsoft.com/provisioning/EapCommon\""@, 16)) by {
            reveal_with_fuel(stands, 17);
        }
        assert(stands(whole, 16, " xmlns=\"http://www.microsoft.com/provisioning/EapCommon\""@, 32)) by {
            reveal_with_fuel(stands, 17);
        }
        assert(stands(whole, 16, " xmlns=\"http://www.microsoft.com/provisioning/EapCommon\""@, 48)) by {
            reveal_with_fuel(stands, 17);
        }
        assert(stands(whole, 16, " xmlns=\"http://www.microsoft.com/provisioning/EapCommon\""@, 56)) by {
            reveal_with_fuel(stands, 9);
        }
        lemma_cut_opening(whole, 7, "VendorId"@, " xmlns=\"http://www.microsoft.com/provisioning/EapCommon\""@);
    }
    assert(whole.skip(73) == "0"@ + whole.skip(74)) by {
        reveal_strlit("0");
        assert(stands(whole, 73, "0"@, 1)) by {
            reveal_with_fuel(stands, 2);
        }
        lemma_cut(whole, 73, "0"@);
    }
    assert(whole.skip(74) == closing("VendorId"@) + whole.skip(85)) by {
        reveal_strlit("VendorId");
        assert(stands(whole, 76, "VendorId"@, 8)) by {
            reveal_with_fuel(stands, 9);
        }
        lemma_cut_closing(whole, 74, "VendorId"@);
    }
    assert(whole.skip(85) == opening("VendorType"@, " xmlns=\"http://www.microsoft.com/provisioning/EapCommon\""@) + whole.skip(153)) by {
        reveal_strlit("VendorType");
        reveal_strlit(" xmlns=\"http://www.microsoft.com/provisioning/EapCommon\"");
        assert(stands(whole, 86, "VendorType"@, 10)) by {
            reveal_with_fuel(stands, 11);
        }
        assert(stands(whole, 96, " xmlns=\"http://www.microsoft.com/provisioning/EapCommon\""@, 16)) by {
            reveal_with_fuel(stands, 17);
        }
        assert(stands(whole, 96, " xmlns=\"http://www.microsoft.com/provisioning/EapCommon\""@, 32)) by {
            reveal_with_fuel(stands, 17);
        }
        assert(stands(whole, 96, " xmlns=\"http://www.microsoft.com/provisioning/EapCommon\""@, 48)) by {
            reveal_with_fuel(stands, 17);
        }
        assert(stands(whole, 96, " xmlns=\"http://www.microsoft.com/provisioning/EapCommon\""@, 56)) by {
            reveal_with_fuel(stands, 9);
        }
        lemma_cut_opening(whole, 85, "VendorType"@, " xmlns=\"http://www.microsoft.com/provisioning/EapCommon\""@);
    }
    assert(whole.skip(153) == "0"@ + whole.skip(154)) by {
        reveal_strlit("0");
        assert(stands(whole, 153, "0"@, 1)) by {
            reveal_with_fuel(stands, 2);
        }
        lemma_cut(whole, 153, "0"@);
    }
    assert(whole.skip(154) == closing("VendorType"@) + whole.skip(167)) by {
        reveal_strlit("VendorType");
        assert(stands(whole, 156, "VendorType"@, 10)) by {
            reveal_with_fuel(stands, 11);
        }
        lemma_cut_closing(whole, 154, "VendorType"@);
    }
    assert(whole.skip(167) == opening("AuthorId"@, " xmlns=\"http://www.microsoft.com/provisioning/EapCommon\""@) + whole.skip(233)) by {
        reveal_strlit("AuthorId");
        reveal_strlit(" xmlns=\"http://www.microsoft.com/provisioning/EapCommon\"");
        assert(stands(whole, 168, "AuthorId"@, 8)) by {
            reveal_with_fuel(stands, 9);
        }
        assert(stands(whole, 176, " xmlns=\"http://www.microsoft.com/provisioning/EapCommon\""@, 16)) by {
            reveal_with_fuel(stands, 17);
        }
        assert(stands(whole, 176, " xmlns=\"http://www.microsoft.com/provisioning/EapCommon\""@, 32)) by {
            reveal_with_fuel(stands, 17);
        }
        assert(stands(whole, 176, " xmlns=\"http://www.microsoft.com/provisioning/EapCommon\""@, 48)) by {
            reveal_with_fuel(stands, 17);
        }
        assert(stands(whole, 176, " xmlns=\"http://www.microsoft.com/provisioning/EapCommon\""@, 56)) by {
            reveal_with_fuel(stands, 9);
        }
        lemma_cut_opening(whole, 167, "AuthorId"@, " xmlns=\"http://www.microsoft.com/provisioning/EapCommon\""@);
    }
    assert(opening("AuthorId"@, " xmlns=\"http://www.microsoft.com/provisioning/EapCommon\""@) + whole.skip(233) =~= opening("AuthorId"@, " xmlns=\"http://www.microsoft.com/provisioning/EapCommon\""@));
    assert(whole.skip(0) =~= whole);
}

#[verifier::spinoff_prover]
pub(crate) proof fn lemma_host_inner()
    ensures
        "</AuthorId></EapMethod><Config>"@ == closing("AuthorId"@) + (closing("EapMethod"@) + (opening("Config"@, ""@))),
{
    let whole = "</AuthorId></EapMethod><Config>"@;
    reveal_strlit("</AuthorId></EapMethod><Config>");
    assert(whole.len() == 31);
    assert(whole.skip(0) == closing("AuthorId"@) + whole.skip(11)) by {
        reveal_strlit("AuthorId");
        assert(stands(whole, 2, "AuthorId"@, 8)) by {
            reveal_with_fuel(stands, 9);
        }
        lemma_cut_closing(whole, 0, "AuthorId"@);
    }
    assert(whole.skip(11) == closing("EapMethod"@) + whole.skip(23)) by {
        reveal_strlit("EapMethod");
        assert(stands(whole, 13, "EapMethod"@, 9)) by {
            reveal_with_fuel(stands, 10);
        }
        lemma_cut_closing(whole, 11, "EapMethod"@);
    }
    assert(whole.skip(23) == opening("Config"@, ""@) + whole.skip(31)) by {
        reveal_strlit("Config");
        reveal_strlit("");
        assert(stands(whole, 24, "Config"@, 6)) by {
            reveal_with_fuel(stands, 7);
        }
        assert(stands(whole, 30, ""@, 0)) by {
            reveal_with_fuel(stands, 1);
        }
        lemma_cut_opening(whole, 23, "Config"@, ""@);
    }
    assert(opening("Config"@, ""@) + whole.skip(31) =~= opening("Config"@, ""@));
    assert(whole.skip(0) =~= whole);
}

#[verifier::spinoff_prover]
pub(crate) proof fn lemma_host_back()
    ensures
        "</Config></EapHostConfig>"@ == closing("Config"@) + (closing("EapHostConfig"@)),
{
    let whole = "</Config></EapHostConfig>"@;
    reveal_strlit("</Config></EapHostConfig>");
    assert(whole.len() == 25);
    assert(whole.skip(0) == closing("Config"@) + whole.skip(9)) by {
        reveal_strlit("Config");
        assert(stands(whole, 2, "Config"@, 6)) by {
            reveal_with_fuel(stands, 7);
        }
        lemma_cut_closing(whole, 0, "Config"@);
    }
    assert(whole.skip(9) == closing("EapHostConfig"@) + whole.skip(25)) by {
        reveal_strlit("EapHostConfig");
        assert(stands(whole, 11, "EapHostConfig"@, 13)) by {
            reveal_with_fuel(stands, 14);
        }
        lemma_cut_closing(whole, 9, "EapHostConfig"@);
    }
    assert(closing("EapHostConfig"@) + whole.skip(25) =~= closing("EapHostConfig"@));
    assert(whole.skip(0) =~= whole);
}

#[verifier::spinoff_prover]
pub(crate) proof fn lemma_lan_front()
    ensures
        "<?xml version=\"1.0\"?><LANProfile xmlns=\"http://www.microsoft.com/networking/LAN/profile/v1\"><MSM><security><OneXEnforced>false</OneXEnforced><OneXEnabled>true</OneXEnabled><OneX xmlns=\"http://www.microsoft.com/networking/OneX/v1\"><authMode>machine</authMode><EAPConfig>"@ == "<?xml version=\"1.0\"?>"@ + opening("LANProfile"@, " xmlns=\"http://www.microsoft.com/networking/LAN/profile/v1\""@) + opening("MSM"@, ""@) + opening("security"@, ""@) + opening("OneXEnforced"@, ""@) + "false"@ + closing("OneXEnforced"@) + opening("OneXEnabled"@, ""@) + "true"@ + closing("OneXEnabled"@) + opening("OneX"@, " xmlns=\"http://www.microsoft.com/networking/OneX/v1\""@) + opening("authMode"@, ""@) + "machine"@ + closing("authMode"@) + opening("EAPConfig"@, ""@),
{
    let whole = "<?xml version=\"1.0\"?><LANProfile xmlns=\"http://www.microsoft.com/networking/LAN/profile/v1\"><MSM><security><OneXEnforced>false</OneXEnforced><OneXEnabled>true</OneXEnabled><OneX xmlns=\"http://www.microsoft.com/networking/OneX/v1\"><authMode>machine</authMode><EAPConfig>"@;
    reveal_strlit("<?xml version=\"1.0\"?><LANProfile xmlns=\"http://www.microsoft.com/networking/LAN/profile/v1\"><MSM><security><OneXEnforced>false</OneXEnforced><OneXEnabled>true</OneXEnabled><OneX xmlns=\"http://www.microsoft.com/networking/OneX/v1\"><authMode>machine</authMode><EAPConfig>");
    assert(whole.len() == 269);
    assert(whole.take(21) == whole.take(0) + "<?xml version=\"1.0\"?>"@) by {
        reveal_strlit("<?xml version=\"1.0\"?>");
        assert(stands(whole, 0, "<?xml version=\"1.0\"?>"@, 16)) by {
            reveal_with_fuel(stands, 17);
        }
        assert(stands(whole, 0, "<?xml version=\"1.0\"?>"@, 21)) by {
            reveal_with_fuel(stands, 6);
        }
        lemma_cut(whole, 0, "<?xml version=\"1.0\"?>"@);
    }
    assert(whole.take(92) == whole.take(21) + opening("LANProfile"@, " xmlns=\"http://www.microsoft.com/networking/LAN/profile/v1\""@)) by {
        reveal_strlit("LANProfile");
        reveal_strlit(" xmlns=\"http://www.microsoft.com/networking/LAN/profile/v1\"");
        assert(stands(whole, 22, "LANProfile"@, 10)) by {
            reveal_with_fuel(stands, 11);
        }
        assert(stands(whole, 32, " xmlns=\"http://www.microsoft.com/networking/LAN/profile/v1\""@, 16)) by {
            reveal_with_fuel(stands, 17);
        }
        assert(stands(whole, 32, " xmlns=\"http://www.microsoft.com/networking/LAN/profile/v1\""@, 32)) by {
            reveal_with_fuel(stands, 17);
        }
        assert(stands(whole, 32, " xmlns=\"http://www.microsoft.com/networking/LAN/profile/v1\""@, 48)) by {
            reveal_with_fuel(stands, 17);
        }
        assert(stands(whole, 32, " xmlns=\"http://www.microsoft.com/networking/LAN/profile/v1\""@, 59)) by {
            reveal_with_fuel(stands, 12);
        }
        lemma_cut_opening(whole, 21, "LANProfile"@, " xmlns=\"http://www.microsoft.com/networking/LAN/profile/v1\""@);
    }
    assert(whole.take(97) == whole.take(92) + opening("MSM"@, ""@)) by {
        reveal_strlit("MSM");
        reveal_strlit("");
        assert(stands(whole, 93, "MSM"@, 3)) by {
            reveal_with_fuel(stands, 4);
        }
        assert(stands(whole, 96, ""@, 0)) by {
            reveal_with_fuel(stands, 1);
        }
        lemma_cut_opening(whole, 92, "MSM"@, ""@);
    }
    assert(whole.take(107) == whole.take(97) + opening("security"@, ""@)) by {
        reveal_strlit("security");
        reveal_strlit("");
        assert(stands(whole, 98, "security"@, 8)) by {
            reveal_with_fuel(stands, 9);
        }
        assert(stands(whole, 106, ""@, 0)) by {
            reveal_with_fuel(stands, 1);
        }
        lemma_cut_opening(whole, 97, "security"@, ""@);
    }
    assert(whole.take(121) == whole.take(107) + opening("OneXEnforced"@, ""@)) by {
        reveal_strlit("OneXEnforced");
        reveal_strlit("");
        assert(stands(whole, 108, "OneXEnforced"@, 12)) by {
            reveal_with_fuel(stands, 13);
        }
        assert(stands(whole, 120, ""@, 0)) by {
            reveal_with_fuel(stands, 1);
        }
        lemma_cut_opening(whole, 107, "OneXEnforced"@, ""@);
    }
    assert(whole.take(126) == whole.take(121) + "false"@) by {
        reveal_strlit("false");
        assert(stands(whole, 121, "false"@, 5)) by {
            reveal_with_fuel(stands, 6);
        }
        lemma_cut(whole, 121, "false"@);
    }
    assert(whole.take(141) == whole.take(126) + closing("OneXEnforced"@)) by {
        reveal_strlit("OneXEnforced");
        assert(stands(whole, 128, "OneXEnforced"@, 12)) by {
            reveal_with_fuel(stands, 13);
        }
        lemma_cut_closing(whole, 126, "OneXEnforced"@);
    }
    assert(whole.take(154) == whole.take(141) + opening("OneXEnabled"@, ""@)) by {
        reveal_strlit("OneXEnabled");
        reveal_strlit("");
        assert(stands(whole, 142, "OneXEnabled"@, 11)) by {
            reveal_with_fuel(stands, 12);
        }
        assert(stands(whole, 153, ""@, 0)) by {
            reveal_with_fuel(stands, 1);
        }
        lemma_cut_opening(whole, 141, "OneXEnabled"@, ""@);
    }
    assert(whole.take(158) == whole.take(154) + "true"@) by {
        reveal_strlit("true");
        assert(stands(whole, 154, "true"@, 4)) by {
            reveal_with_fuel(stands, 5);
        }
        lemma_cut(whole, 154, "true"@);
    }
    assert(whole.take(172) == whole.take(158) + closing("OneXEnabled"@)) by {
        reveal_strlit("OneXEnabled");
        assert(stands(whole, 160, "OneXEnabled"@, 11)) by {
            reveal_with_fuel(stands, 12);
        }
        lemma_cut_closing(whole, 158, "OneXEnabled"@);
    }
    assert(whole.take(230) == whole.take(172) + opening("OneX"@, " xmlns=\"http://www.microsoft.com/networking/OneX/v1\""@)) by {
        reveal_strlit("OneX");
        reveal_strlit(" xmlns=\"http://www.microsoft.com/networking/OneX/v1\"");
        assert(stands(whole, 173, "OneX"@, 4)) by {
            reveal_with_fuel(stands, 5);
        }
        assert(stands(whole, 177, " xmlns=\"http://www.microsoft.com/networking/OneX/v1\""@, 16)) by {
            reveal_with_fuel(stands, 17);
        }
        assert(stands(whole, 177, " xmlns=\"http://www.microsoft.com/networking/OneX/v1\""@, 32)) by {
            reveal_with_fuel(stands, 17);
        }
        assert(stands(whole, 177, " xmlns=\"http://www.microsoft.com/networking/OneX/v1\""@, 48)) by {
            reveal_with_fuel(stands, 17);
        }
        assert(stands(whole, 177, " xmlns=\"http://www.microsoft.com/networking/OneX/v1\""@, 52)) by {
            reveal_with_fuel(stands, 5);
        }
        lemma_cut_opening(whole, 172, "OneX"@, " xmlns=\"http://www.microsoft.com/networking/OneX/v1\""@);
    }
    assert(whole.take(240) == whole.take(230) + opening("authMode"@, ""@)) by {
        reveal_strlit("authMode");
        reveal_strlit("");
        assert(stands(whole, 231, "authMode"@, 8)) by {
            reveal_with_fuel(stands, 9);
        }
        assert(stands(whole, 239, ""@, 0)) by {
            reveal_with_fuel(stands, 1);
        }
        lemma_cut_opening(whole, 230, "authMode"@, ""@);
    }
    assert(whole.take(247) == whole.take(240) + "machine"@) by {
        reveal_strlit("machine");
        assert(stands(whole, 240, "machine"@, 7)) by {
            reveal_with_fuel(stands, 8);
        }
        lemma_cut(whole, 240, "machine"@);
    }
    assert(whole.take(258) == whole.take(247) + closing("authMode"@)) by {
        reveal_strlit("authMode");
        assert(stands(whole, 249, "authMode"@, 8)) by {
            reveal_with_fuel(stands, 9);
        }
        lemma_cut_closing(whole, 247, "authMode"@);
    }
    assert(whole.take(269) == whole.take(258) + opening("EAPConfig"@, ""@)) by {
        reveal_strlit("EAPConfig");
        reveal_strlit("");
        assert(stands(whole, 259, "EAPConfig"@, 9)) by {
            reveal_with_fuel(stands, 10);
        }
        assert(stands(whole, 268, ""@, 0)) by {
            reveal_with_fuel(stands, 1);
        }
        lemma_cut_opening(whole, 258, "EAPConfig"@, ""@);
    }
    assert(whole.take(0) + "<?xml version=\"1.0\"?>"@ =~= "<?xml version=\"1.0\"?>"@);
    assert(whole.take(269) =~= whole);
}

#[verifier::spinoff_prover]
pub(crate) proof fn lemma_lan_back()
    ensures
        "</EAPConfig></OneX></security></MSM></LANProfile>"@ == closing("EAPConfig"@) + (closing("OneX"@) + (closing("security"@) + (closing("MSM"@) + (closing("LANProfile"@))))),
{
    let whole = "</EAPConfig></OneX></security></MSM></LANProfile>"@;
    reveal_strlit("</EAPConfig></OneX></security></MSM></LANProfile>");
    assert(whole.len() == 49);
    assert(whole.skip(0) == closing("EAPConfig"@) + whole.skip(12)) by {
        reveal_strlit("EAPConfig");
        assert(stands(whole, 2, "EAPConfig"@, 9)) by {
            reveal_with_fuel(stands, 10);
        }
        lemma_cut_closing(whole, 0, "EAPConfig"@);
    }
    assert(whole.skip(12) == closing("OneX"@) + whole.skip(19)) by {
        reveal_strlit("OneX");
        assert(stands(whole, 14, "OneX"@, 4)) by {
            reveal_with_fuel(stands, 5);
        }
        lemma_cut_closing(whole, 12, "OneX"@);
    }
    assert(whole.skip(19) == closing("security"@) + whole.skip(30)) by {
        reveal_strlit("security");
        assert(stands(whole, 21, "security"@, 8)) by {
            reveal_with_fuel(stands, 9);
        }
        lemma_cut_closing(whole, 19, "security"@);
    }
    assert(whole.skip(30) == closing("MSM"@) + whole.skip(36)) by {
        reveal_strlit("MSM");
        assert(stands(whole, 32, "MSM"@, 3)) by {
            reveal_with_fuel(stands, 4);
        }
        lemma_cut_closing(whole, 30, "MSM"@);
    }
    assert(whole.skip(36) == closing("LANProfile"@) + whole.skip(49)) by {
        reveal_strlit("LANProfile");
        assert(stands(whole, 38, "LANProfile"@, 10)) by {
            reveal_with_fuel(stands, 11);
        }
        lemma_cut_closing(whole, 36, "LANProfile"@);
    }
    assert(closing("LANProfile"@) + whole.skip(49) =~= closing("LANProfile"@));
    assert(whole.skip(0) =~= whole);
}

pub(crate) proof fn lemma_host_names()
    ensures
        is_name("EapHostConfig"@),
        is_name("EapMethod"@),
        is_name("Type"@),
        is_name("VendorId"@),
        is_name("VendorType"@),
        is_name("AuthorId"@),
        is_name("Config"@),
        is_name("UsgTeapConfigBlob"@),
{
    assert(is_name("EapHostConfig"@)) by {
        reveal_strlit("EapHostConfig");
        reveal_with_fuel(marks_none, 14);
        lemma_marks_none("EapHostConfig"@, false, 13);
    }
    assert(is_name("EapMethod"@)) by {
        reveal_strlit("EapMethod");
        reveal_with_fuel(marks_none, 10);
        lemma_marks_none("EapMethod"@, false, 9);
    }
    assert(is_name("Type"@)) by {
        reveal_strlit("Type");
        reveal_with_fuel(marks_none, 5);
        lemma_marks_none("Type"@, false, 4);
    }
    assert(is_name("VendorId"@)) by {
        reveal_strlit("VendorId");
        reveal_with_fuel(marks_none, 9);
        lemma_marks_none("VendorId"@, false, 8);
    }
    assert(is_name("VendorType"@)) by {
        reveal_strlit("VendorType");
        reveal_with_fuel(marks_none, 11);
        lemma_marks_none("VendorType"@, false, 10);
    }
    assert(is_name("AuthorId"@)) by {
        reveal_strlit("AuthorId");
        reveal_with_fuel(marks_none, 9);
        lemma_marks_none("AuthorId"@, false, 8);
    }
    assert(is_name("Config"@)) by {
        reveal_strlit("Config");
        reveal_with_fuel(marks_none, 7);
        lemma_marks_none("Config"@, false, 6);
    }
    assert(is_name("UsgTeapConfigBlob"@)) by {
        reveal_strlit("UsgTeapConfigBlob");
        reveal_with_fuel(marks_none, 18);
        lemma_marks_none("UsgTeapConfigBlob"@, false, 17);
    }
}

pub(crate) proof fn lemma_lan_names()
    ensures
        is_name("LANProfile"@),
        is_name("MSM"@),
        is_name("security"@),
        is_name("OneXEnforced"@),
        is_name("OneXEnabled"@),
        is_name("OneX"@),
        is_name("authMode"@),
        is_name("EAPConfig"@),
{
    assert(is_name("LANProfile"@)) by {
        reveal_strlit("LANProfile");
        reveal_with_fuel(marks_none, 11);
        lemma_marks_none("LANProfile"@, false, 10);
    }
    assert(is_name("MSM"@)) by {
        reveal_strlit("MSM");
        reveal_with_fuel(marks_none, 4);
        lemma_marks_none("MSM"@, false, 3);
    }
    assert(is_name("security"@)) by {
        reveal_strlit("security");
        reveal_with_fuel(marks_none, 9);
        lemma_marks_none("security"@, false, 8);
    }
    assert(is_name("OneXEnforced"@)) by {
        reveal_strlit("OneXEnforced");
        reveal_with_fuel(marks_none, 13);
        lemma_marks_none("OneXEnforced"@, false, 12);
    }
    assert(is_name("OneXEnabled"@)) by {
        reveal_strlit("OneXEnabled");
        reveal_with_fuel(marks_none, 12);
        lemma_marks_none("OneXEnabled"@, false, 11);
    }
    assert(is_name("OneX"@)) by {
        reveal_strlit("OneX");
        reveal_with_fuel(marks_none, 5);
        lemma_marks_none("OneX"@, false, 4);
    }
    assert(is_name("authMode"@)) by {
        reveal_strlit("authMode");
        reveal_with_fuel(marks_none, 9);
        lemma_marks_none("authMode"@, false, 8);
    }
    assert(is_name("EAPConfig"@)) by {
        reveal_strlit("EAPConfig");
        reveal_with_fuel(marks_none, 10);
        lemma_marks_none("EAPConfig"@, false, 9);
    }
}

pub(crate) proof fn lemma_attributes()
    ensures
        are_attributes(" xmlns=\"http://www.microsoft.com/provisioning/EapHostConfig\""@),
        are_attributes(""@),
        are_attributes(" xmlns=\"http://www.microsoft.com/provisioning/EapCommon\""@),
        are_attributes(" xmlns=\"http://www.microsoft.com/networking/LAN/profile/v1\""@),
        are_attributes(" xmlns=\"http://www.microsoft.com/networking/OneX/v1\""@),
{
    assert(are_attributes(" xmlns=\"http://www.microsoft.com/provisioning/EapHostConfig\""@)) by {
        reveal_strlit(" xmlns=\"http://www.microsoft.com/provisioning/EapHostConfig\"");
        reveal_with_fuel(marks_none, 61);
        lemma_marks_none(" xmlns=\"http://www.microsoft.com/provisioning/EapHostConfig\""@, true, 60);
    }
    assert(are_attributes(""@)) by {
        reveal_strlit("");
        reveal_with_fuel(marks_none, 1);
        lemma_marks_none(""@, true, 0);
    }
    assert(are_attributes(" xmlns=\"http://www.microsoft.com/provisioning/EapCommon\""@)) by {
        reveal_strlit(" xmlns=\"http://www.microsoft.com/provisioning/EapCommon\"");
        reveal_with_fuel(marks_none, 57);
        lemma_marks_none(" xmlns=\"http://www.microsoft.com/provisioning/EapCommon\""@, true, 56);
    }
    assert(are_attributes(" xmlns=\"http://www.microsoft.com/networking/LAN/profile/v1\""@)) by {
        reveal_strlit(" xmlns=\"http://www.microsoft.com/networking/LAN/profile/v1\"");
        reveal_with_fuel(marks_none, 60);
        lemma_marks_none(" xmlns=\"http://www.microsoft.com/networking/LAN/profile/v1\""@, true, 59);
    }
    assert(are_attributes(" xmlns=\"http://www.microsoft.com/networking/OneX/v1\""@)) by {
        reveal_strlit(" xmlns=\"http://www.microsoft.com/networking/OneX/v1\"");
        reveal_with_fuel(marks_none, 53);
        lemma_marks_none(" xmlns=\"http://www.microsoft.com/networking/OneX/v1\""@, true, 52);
    }
}

pub(crate) proof fn lemma_contents()
    ensures
        closes_itself("false"@),
        closes_itself("true"@),
        closes_itself("machine"@),
        closes_itself("0"@),
{
    assert(closes_itself("false"@)) by {
        reveal_strlit("false");
        reveal_with_fuel(marks_none, 6);
        lemma_marks_none("false"@, true, 5);
        lemma_plain_closes("false"@);
    }
    assert(closes_itself("true"@)) by {
        reveal_strlit("true");
        reveal_with_fuel(marks_none, 5);
        lemma_marks_none("true"@, true, 4);
        lemma_plain_closes("true"@);
    }
    assert(closes_itself("machine"@)) by {
        reveal_strlit("machine");
        reveal_with_fuel(marks_none, 8);
        lemma_marks_none("machine"@, true, 7);
        lemma_plain_closes("machine"@);
    }
    assert(closes_itself("0"@)) by {
        reveal_strlit("0");
        reveal_with_fuel(marks_none, 2);
        lemma_marks_none("0"@, true, 1);
        lemma_plain_closes("0"@);
    }
}

} // verus!
