//! Every domain on the ready lists stands there once: its length and a few of
//! its letters tell where.
use vstd::prelude::*;

use crate::probe::presets::{
    cloudflare_preset, discord_preset, entries, general_preset, googlevideo_preset, preset_table,
    social_preset, telegram_preset, turkiye_preset, youtube_preset,
};

verus! {

/// The place of a listed domain, counted over all lists from the first one on.
pub open spec fn place_of(s: Seq<char>) -> int {
    if s.len() == 5 {
        if s[0] == 'f' {
            110
        } else {
            118
        }
    } else if s.len() == 6 {
        if s[0] == 'd' {
            84
        } else if s[0] == 'f' {
            109
        } else {
            138
        }
    } else if s.len() == 7 {
        if s[0] == 'c' {
            137
        } else {
            122
        }
    } else if s.len() == 8 {
        if s[0] == 'm' {
            113
        } else if s[0] == 's' {
            106
        } else {
            1
        }
    } else if s.len() == 9 {
        if s[0] == 'b' {
            136
        } else if s[0] == 'f' {
            111
        } else if s[0] == 'o' {
            126
        } else if s[0] == 'p' {
            116
        } else {
            123
        }
    } else if s.len() == 10 {
        if s[0] == 'd' {
            if s[8] == 'c' {
                85
            } else {
                86
            }
        } else if s[0] == 'm' {
            117
        } else if s[0] == 'n' {
            124
        } else if s[0] == 'r' {
            131
        } else {
            if s[4] == 'g' {
                71
            } else {
                72
            }
        }
    } else if s.len() == 11 {
        if s[1] == '.' {
            2
        } else if s[1] == 'a' {
            132
        } else if s[1] == 'e' {
            69
        } else if s[1] == 'i' {
            if s[8] == 'a' {
                87
            } else if s[8] == 'c' {
                88
            } else if s[8] == 'd' {
                89
            } else {
                90
            }
        } else if s[1] == 'o' {
            0
        } else if s[1] == 's' {
            134
        } else {
            119
        }
    } else if s.len() == 12 {
        if s[0] == 'd' {
            91
        } else if s[0] == 'f' {
            108
        } else if s[0] == 'i' {
            3
        } else if s[0] == 'l' {
            107
        } else if s[0] == 'p' {
            133
        } else if s[0] == 's' {
            105
        } else {
            if s[9] == 'd' {
                70
            } else {
                32
            }
        }
    } else if s.len() == 13 {
        if s[0] == 'd' {
            if s[8] == 'g' {
                92
            } else if s[8] == 'm' {
                93
            } else {
                94
            }
        } else if s[0] == 'i' {
            114
        } else if s[0] == 'm' {
            112
        } else if s[0] == 'r' {
            121
        } else if s[0] == 's' {
            125
        } else if s[0] == 'w' {
            135
        } else {
            if s[2] == '3' {
                4
            } else {
                5
            }
        }
    } else if s.len() == 14 {
        if s[7] == '.' {
            95
        } else if s[7] == 'a' {
            if s[0] == 'c' {
                if s[11] == 'c' {
                    127
                } else {
                    128
                }
            } else {
                96
            }
        } else if s[7] == 'c' {
            97
        } else if s[7] == 'o' {
            120
        } else if s[7] == 'p' {
            6
        } else if s[7] == 'r' {
            52
        } else {
            98
        }
    } else if s.len() == 15 {
        if s[0] == 'd' {
            99
        } else if s[0] == 'm' {
            36
        } else if s[0] == 'q' {
            60
        } else {
            73
        }
    } else if s.len() == 16 {
        if s[0] == 'a' {
            44
        } else if s[0] == 'c' {
            if s[1] == 'd' {
                83
            } else {
                129
            }
        } else if s[0] == 'd' {
            if s[1] == 'e' {
                56
            } else {
                100
            }
        } else if s[0] == 'i' {
            48
        } else if s[0] == 'p' {
            68
        } else if s[0] == 't' {
            66
        } else {
            34
        }
    } else if s.len() == 17 {
        if s[0] == 'a' {
            43
        } else if s[0] == 'b' {
            39
        } else if s[0] == 'c' {
            33
        } else if s[0] == 'd' {
            54
        } else if s[0] == 'h' {
            53
        } else {
            35
        }
    } else if s.len() == 18 {
        if s[0] == 'c' {
            130
        } else if s[0] == 'e' {
            62
        } else if s[0] == 'l' {
            42
        } else if s[0] == 'm' {
            47
        } else if s[0] == 'p' {
            45
        } else {
            82
        }
    } else if s.len() == 19 {
        if s[0] == 'c' {
            51
        } else if s[0] == 'd' {
            64
        } else if s[0] == 's' {
            55
        } else if s[0] == 't' {
            63
        } else if s[0] == 'v' {
            41
        } else {
            67
        }
    } else if s.len() == 20 {
        if s[3] == '1' {
            76
        } else if s[3] == '2' {
            77
        } else if s[3] == 'k' {
            46
        } else if s[3] == 'm' {
            58
        } else if s[3] == 'r' {
            49
        } else {
            57
        }
    } else if s.len() == 21 {
        if s[4] == '.' {
            if s[3] == '1' {
                74
            } else {
                75
            }
        } else if s[4] == 'e' {
            40
        } else if s[4] == 'i' {
            59
        } else if s[4] == 'k' {
            61
        } else if s[4] == 'l' {
            8
        } else if s[4] == 'm' {
            65
        } else if s[4] == 'o' {
            if s[7] == 'a' {
                102
            } else {
                101
            }
        } else {
            7
        }
    } else if s.len() == 22 {
        if s[2] == 'a' {
            50
        } else if s[2] == 'n' {
            78
        } else if s[2] == 's' {
            81
        } else {
            79
        }
    } else if s.len() == 23 {
        if s[1] == 'i' {
            9
        } else if s[1] == 'o' {
            10
        } else if s[1] == 't' {
            115
        } else {
            80
        }
    } else if s.len() == 24 {
        if s[0] == 'i' {
            38
        } else {
            11
        }
    } else if s.len() == 25 {
        if s[0] == 's' {
            103
        } else if s[0] == 't' {
            37
        } else {
            12
        }
    } else if s.len() == 33 {
        if s[2] == '1' {
            29
        } else if s[2] == '2' {
            if s[9] == 'h' {
                30
            } else {
                26
            }
        } else if s[2] == '4' {
            17
        } else {
            24
        }
    } else if s.len() == 34 {
        if s[3] == '-' {
            13
        } else if s[3] == '4' {
            19
        } else {
            20
        }
    } else if s.len() == 37 {
        28
    } else if s.len() == 39 {
        if s[9] == '8' {
            21
        } else {
            31
        }
    } else if s.len() == 40 {
        if s[20] == '5' {
            22
        } else if s[20] == 'n' {
            27
        } else {
            14
        }
    } else if s.len() == 41 {
        if s[3] == '0' {
            18
        } else {
            23
        }
    } else if s.len() == 42 {
        if s[22] == 'n' {
            16
        } else if s[22] == 'o' {
            25
        } else {
            15
        }
    } else if s.len() == 54 {
        104
    } else {
        -1
    }
}

proof fn youtube_places(i: int)
    requires
        0 <= i < 13,
    ensures
        place_of(youtube_preset().domains[i]) == 0 + i,
{
    assert(place_of("youtube.com"@) == 0) by {
        reveal_strlit("youtube.com");
    }
    assert(place_of("youtu.be"@) == 1) by {
        reveal_strlit("youtu.be");
    }
    assert(place_of("i.ytimg.com"@) == 2) by {
        reveal_strlit("i.ytimg.com");
    }
    assert(place_of("i9.ytimg.com"@) == 3) by {
        reveal_strlit("i9.ytimg.com");
    }
    assert(place_of("yt3.ggpht.com"@) == 4) by {
        reveal_strlit("yt3.ggpht.com");
    }
    assert(place_of("yt4.ggpht.com"@) == 5) by {
        reveal_strlit("yt4.ggpht.com");
    }
    assert(place_of("googleapis.com"@) == 6) by {
        reveal_strlit("googleapis.com");
    }
    assert(place_of("jnn-pa.googleapis.com"@) == 7) by {
        reveal_strlit("jnn-pa.googleapis.com");
    }
    assert(place_of("googleusercontent.com"@) == 8) by {
        reveal_strlit("googleusercontent.com");
    }
    assert(place_of("signaler-pa.youtube.com"@) == 9) by {
        reveal_strlit("signaler-pa.youtube.com");
    }
    assert(place_of("youtubei.googleapis.com"@) == 10) by {
        reveal_strlit("youtubei.googleapis.com");
    }
    assert(place_of("manifest.googlevideo.com"@) == 11) by {
        reveal_strlit("manifest.googlevideo.com");
    }
    assert(place_of("yt3.googleusercontent.com"@) == 12) by {
        reveal_strlit("yt3.googleusercontent.com");
    }
}

proof fn googlevideo_places(i: int)
    requires
        0 <= i < 19,
    ensures
        place_of(googlevideo_preset().domains[i]) == 13 + i,
{
    assert(place_of("rr1---sn-4axm-n8vs.googlevideo.com"@) == 13) by {
        reveal_strlit("rr1---sn-4axm-n8vs.googlevideo.com");
    }
    assert(place_of("rr1---sn-gvnuxaxjvh-o8ge.googlevideo.com"@) == 14) by {
        reveal_strlit("rr1---sn-gvnuxaxjvh-o8ge.googlevideo.com");
    }
    assert(place_of("rr1---sn-ug5onuxaxjvh-p3ul.googlevideo.com"@) == 15) by {
        reveal_strlit("rr1---sn-ug5onuxaxjvh-p3ul.googlevideo.com");
    }
    assert(place_of("rr1---sn-ug5onuxaxjvh-n8v6.googlevideo.com"@) == 16) by {
        reveal_strlit("rr1---sn-ug5onuxaxjvh-n8v6.googlevideo.com");
    }
    assert(place_of("rr4---sn-q4flrnsl.googlevideo.com"@) == 17) by {
        reveal_strlit("rr4---sn-q4flrnsl.googlevideo.com");
    }
    assert(place_of("rr10---sn-gvnuxaxjvh-304z.googlevideo.com"@) == 18) by {
        reveal_strlit("rr10---sn-gvnuxaxjvh-304z.googlevideo.com");
    }
    assert(place_of("rr14---sn-n8v7kn7r.googlevideo.com"@) == 19) by {
        reveal_strlit("rr14---sn-n8v7kn7r.googlevideo.com");
    }
    assert(place_of("rr16---sn-axq7sn76.googlevideo.com"@) == 20) by {
        reveal_strlit("rr16---sn-axq7sn76.googlevideo.com");
    }
    assert(place_of("rr1---sn-8ph2xajvh-5xge.googlevideo.com"@) == 21) by {
        reveal_strlit("rr1---sn-8ph2xajvh-5xge.googlevideo.com");
    }
    assert(place_of("rr1---sn-gvnuxaxjvh-5gie.googlevideo.com"@) == 22) by {
        reveal_strlit("rr1---sn-gvnuxaxjvh-5gie.googlevideo.com");
    }
    assert(place_of("rr12---sn-gvnuxaxjvh-bvwz.googlevideo.com"@) == 23) by {
        reveal_strlit("rr12---sn-gvnuxaxjvh-bvwz.googlevideo.com");
    }
    assert(place_of("rr5---sn-n8v7knez.googlevideo.com"@) == 24) by {
        reveal_strlit("rr5---sn-n8v7knez.googlevideo.com");
    }
    assert(place_of("rr1---sn-u5uuxaxjvhg0-ocje.googlevideo.com"@) == 25) by {
        reveal_strlit("rr1---sn-u5uuxaxjvhg0-ocje.googlevideo.com");
    }
    assert(place_of("rr2---sn-q4fl6ndl.googlevideo.com"@) == 26) by {
        reveal_strlit("rr2---sn-q4fl6ndl.googlevideo.com");
    }
    assert(place_of("rr5---sn-gvnuxaxjvh-n8vk.googlevideo.com"@) == 27) by {
        reveal_strlit("rr5---sn-gvnuxaxjvh-n8vk.googlevideo.com");
    }
    assert(place_of("rr4---sn-jvhnu5g-c35d.googlevideo.com"@) == 28) by {
        reveal_strlit("rr4---sn-jvhnu5g-c35d.googlevideo.com");
    }
    assert(place_of("rr1---sn-q4fl6n6y.googlevideo.com"@) == 29) by {
        reveal_strlit("rr1---sn-q4fl6n6y.googlevideo.com");
    }
    assert(place_of("rr2---sn-hgn7ynek.googlevideo.com"@) == 30) by {
        reveal_strlit("rr2---sn-hgn7ynek.googlevideo.com");
    }
    assert(place_of("rr1---sn-xguxaxjvh-gufl.googlevideo.com"@) == 31) by {
        reveal_strlit("rr1---sn-xguxaxjvh-gufl.googlevideo.com");
    }
}

proof fn telegram_places(i: int)
    requires
        0 <= i < 52,
    ensures
        place_of(telegram_preset().domains[i]) == 32 + i,
{
    assert(place_of("telegram.org"@) == 32) by {
        reveal_strlit("telegram.org");
    }
    assert(place_of("core.telegram.org"@) == 33) by {
        reveal_strlit("core.telegram.org");
    }
    assert(place_of("web.telegram.org"@) == 34) by {
        reveal_strlit("web.telegram.org");
    }
    assert(place_of("webk.telegram.org"@) == 35) by {
        reveal_strlit("webk.telegram.org");
    }
    assert(place_of("my.telegram.org"@) == 36) by {
        reveal_strlit("my.telegram.org");
    }
    assert(place_of("translations.telegram.org"@) == 37) by {
        reveal_strlit("translations.telegram.org");
    }
    assert(place_of("instantview.telegram.org"@) == 38) by {
        reveal_strlit("instantview.telegram.org");
    }
    assert(place_of("blog.telegram.org"@) == 39) by {
        reveal_strlit("blog.telegram.org");
    }
    assert(place_of("comments.telegram.org"@) == 40) by {
        reveal_strlit("comments.telegram.org");
    }
    assert(place_of("verify.telegram.org"@) == 41) by {
        reveal_strlit("verify.telegram.org");
    }
    assert(place_of("login.telegram.org"@) == 42) by {
        reveal_strlit("login.telegram.org");
    }
    assert(place_of("auth.telegram.org"@) == 43) by {
        reveal_strlit("auth.telegram.org");
    }
    assert(place_of("api.telegram.org"@) == 44) by {
        reveal_strlit("api.telegram.org");
    }
    assert(place_of("promo.telegram.org"@) == 45) by {
        reveal_strlit("promo.telegram.org");
    }
    assert(place_of("desktop.telegram.org"@) == 46) by {
        reveal_strlit("desktop.telegram.org");
    }
    assert(place_of("macos.telegram.org"@) == 47) by {
        reveal_strlit("macos.telegram.org");
    }
    assert(place_of("ios.telegram.org"@) == 48) by {
        reveal_strlit("ios.telegram.org");
    }
    assert(place_of("android.telegram.org"@) == 49) by {
        reveal_strlit("android.telegram.org");
    }
    assert(place_of("reactions.telegram.org"@) == 50) by {
        reveal_strlit("reactions.telegram.org");
    }
    assert(place_of("claims.telegram.org"@) == 51) by {
        reveal_strlit("claims.telegram.org");
    }
    assert(place_of("x.telegram.org"@) == 52) by {
        reveal_strlit("x.telegram.org");
    }
    assert(place_of("help.telegram.org"@) == 53) by {
        reveal_strlit("help.telegram.org");
    }
    assert(place_of("docs.telegram.org"@) == 54) by {
        reveal_strlit("docs.telegram.org");
    }
    assert(place_of("schema.telegram.org"@) == 55) by {
        reveal_strlit("schema.telegram.org");
    }
    assert(place_of("dev.telegram.org"@) == 56) by {
        reveal_strlit("dev.telegram.org");
    }
    assert(place_of("contest.telegram.org"@) == 57) by {
        reveal_strlit("contest.telegram.org");
    }
    assert(place_of("premium.telegram.org"@) == 58) by {
        reveal_strlit("premium.telegram.org");
    }
    assert(place_of("settings.telegram.org"@) == 59) by {
        reveal_strlit("settings.telegram.org");
    }
    assert(place_of("qr.telegram.org"@) == 60) by {
        reveal_strlit("qr.telegram.org");
    }
    assert(place_of("stickers.telegram.org"@) == 61) by {
        reveal_strlit("stickers.telegram.org");
    }
    assert(place_of("emoji.telegram.org"@) == 62) by {
        reveal_strlit("emoji.telegram.org");
    }
    assert(place_of("themes.telegram.org"@) == 63) by {
        reveal_strlit("themes.telegram.org");
    }
    assert(place_of("donate.telegram.org"@) == 64) by {
        reveal_strlit("donate.telegram.org");
    }
    assert(place_of("fragment.telegram.org"@) == 65) by {
        reveal_strlit("fragment.telegram.org");
    }
    assert(place_of("ton.telegram.org"@) == 66) by {
        reveal_strlit("ton.telegram.org");
    }
    assert(place_of("wallet.telegram.org"@) == 67) by {
        reveal_strlit("wallet.telegram.org");
    }
    assert(place_of("pay.telegram.org"@) == 68) by {
        reveal_strlit("pay.telegram.org");
    }
    assert(place_of("telegram.me"@) == 69) by {
        reveal_strlit("telegram.me");
    }
    assert(place_of("telegram.dog"@) == 70) by {
        reveal_strlit("telegram.dog");
    }
    assert(place_of("telegra.ph"@) == 71) by {
        reveal_strlit("telegra.ph");
    }
    assert(place_of("telesco.pe"@) == 72) by {
        reveal_strlit("telesco.pe");
    }
    assert(place_of("web.telegram.me"@) == 73) by {
        reveal_strlit("web.telegram.me");
    }
    assert(place_of("zws1.web.telegram.org"@) == 74) by {
        reveal_strlit("zws1.web.telegram.org");
    }
    assert(place_of("zws2.web.telegram.org"@) == 75) by {
        reveal_strlit("zws2.web.telegram.org");
    }
    assert(place_of("zws1.web.telegram.me"@) == 76) by {
        reveal_strlit("zws1.web.telegram.me");
    }
    assert(place_of("zws2.web.telegram.me"@) == 77) by {
        reveal_strlit("zws2.web.telegram.me");
    }
    assert(place_of("venus.web.telegram.org"@) == 78) by {
        reveal_strlit("venus.web.telegram.org");
    }
    assert(place_of("pluto.web.telegram.org"@) == 79) by {
        reveal_strlit("pluto.web.telegram.org");
    }
    assert(place_of("aurora.web.telegram.org"@) == 80) by {
        reveal_strlit("aurora.web.telegram.org");
    }
    assert(place_of("vesta.web.telegram.org"@) == 81) by {
        reveal_strlit("vesta.web.telegram.org");
    }
    assert(place_of("voice.telegram.org"@) == 82) by {
        reveal_strlit("voice.telegram.org");
    }
    assert(place_of("cdn.telegram.org"@) == 83) by {
        reveal_strlit("cdn.telegram.org");
    }
}

proof fn discord_places(i: int)
    requires
        0 <= i < 21,
    ensures
        place_of(discord_preset().domains[i]) == 84 + i,
{
    assert(place_of("dis.gd"@) == 84) by {
        reveal_strlit("dis.gd");
    }
    assert(place_of("discord.co"@) == 85) by {
        reveal_strlit("discord.co");
    }
    assert(place_of("discord.gg"@) == 86) by {
        reveal_strlit("discord.gg");
    }
    assert(place_of("discord.app"@) == 87) by {
        reveal_strlit("discord.app");
    }
    assert(place_of("discord.com"@) == 88) by {
        reveal_strlit("discord.com");
    }
    assert(place_of("discord.dev"@) == 89) by {
        reveal_strlit("discord.dev");
    }
    assert(place_of("discord.new"@) == 90) by {
        reveal_strlit("discord.new");
    }
    assert(place_of("discord.gift"@) == 91) by {
        reveal_strlit("discord.gift");
    }
    assert(place_of("discord.gifts"@) == 92) by {
        reveal_strlit("discord.gifts");
    }
    assert(place_of("discord.media"@) == 93) by {
        reveal_strlit("discord.media");
    }
    assert(place_of("discord.store"@) == 94) by {
        reveal_strlit("discord.store");
    }
    assert(place_of("discord.design"@) == 95) by {
        reveal_strlit("discord.design");
    }
    assert(place_of("discordapp.com"@) == 96) by {
        reveal_strlit("discordapp.com");
    }
    assert(place_of("discordcdn.com"@) == 97) by {
        reveal_strlit("discordcdn.com");
    }
    assert(place_of("discordsez.com"@) == 98) by {
        reveal_strlit("discordsez.com");
    }
    assert(place_of("discordsays.com"@) == 99) by {
        reveal_strlit("discordsays.com");
    }
    assert(place_of("discordmerch.com"@) == 100) by {
        reveal_strlit("discordmerch.com");
    }
    assert(place_of("discordpartygames.com"@) == 101) by {
        reveal_strlit("discordpartygames.com");
    }
    assert(place_of("discordactivities.com"@) == 102) by {
        reveal_strlit("discordactivities.com");
    }
    assert(place_of("stable.dl2.discordapp.net"@) == 103) by {
        reveal_strlit("stable.dl2.discordapp.net");
    }
    assert(place_of("discord-attachments-uploads-prd.storage.googleapis.com"@) == 104) by {
        reveal_strlit("discord-attachments-uploads-prd.storage.googleapis.com");
    }
}

proof fn social_places(i: int)
    requires
        0 <= i < 16,
    ensures
        place_of(social_preset().domains[i]) == 105 + i,
{
    assert(place_of("snapchat.com"@) == 105) by {
        reveal_strlit("snapchat.com");
    }
    assert(place_of("snap.com"@) == 106) by {
        reveal_strlit("snap.com");
    }
    assert(place_of("linkedin.com"@) == 107) by {
        reveal_strlit("linkedin.com");
    }
    assert(place_of("facebook.com"@) == 108) by {
        reveal_strlit("facebook.com");
    }
    assert(place_of("fb.com"@) == 109) by {
        reveal_strlit("fb.com");
    }
    assert(place_of("fb.me"@) == 110) by {
        reveal_strlit("fb.me");
    }
    assert(place_of("fbcdn.net"@) == 111) by {
        reveal_strlit("fbcdn.net");
    }
    assert(place_of("messenger.com"@) == 112) by {
        reveal_strlit("messenger.com");
    }
    assert(place_of("meta.com"@) == 113) by {
        reveal_strlit("meta.com");
    }
    assert(place_of("instagram.com"@) == 114) by {
        reveal_strlit("instagram.com");
    }
    assert(place_of("static.cdninstagram.com"@) == 115) by {
        reveal_strlit("static.cdninstagram.com");
    }
    assert(place_of("proton.me"@) == 116) by {
        reveal_strlit("proton.me");
    }
    assert(place_of("medium.com"@) == 117) by {
        reveal_strlit("medium.com");
    }
    assert(place_of("x.com"@) == 118) by {
        reveal_strlit("x.com");
    }
    assert(place_of("twitter.com"@) == 119) by {
        reveal_strlit("twitter.com");
    }
    assert(place_of("soundcloud.com"@) == 120) by {
        reveal_strlit("soundcloud.com");
    }
}

proof fn general_places(i: int)
    requires
        0 <= i < 6,
    ensures
        place_of(general_preset().domains[i]) == 121 + i,
{
    assert(place_of("rutracker.org"@) == 121) by {
        reveal_strlit("rutracker.org");
    }
    assert(place_of("nyaa.si"@) == 122) by {
        reveal_strlit("nyaa.si");
    }
    assert(place_of("rutor.org"@) == 123) by {
        reveal_strlit("rutor.org");
    }
    assert(place_of("nnmclub.to"@) == 124) by {
        reveal_strlit("nnmclub.to");
    }
    assert(place_of("speedtest.net"@) == 125) by {
        reveal_strlit("speedtest.net");
    }
    assert(place_of("ookla.com"@) == 126) by {
        reveal_strlit("ookla.com");
    }
}

proof fn cloudflare_places(i: int)
    requires
        0 <= i < 4,
    ensures
        place_of(cloudflare_preset().domains[i]) == 127 + i,
{
    assert(place_of("cloudflare.com"@) == 127) by {
        reveal_strlit("cloudflare.com");
    }
    assert(place_of("cloudflare.net"@) == 128) by {
        reveal_strlit("cloudflare.net");
    }
    assert(place_of("cloudflarecn.net"@) == 129) by {
        reveal_strlit("cloudflarecn.net");
    }
    assert(place_of("cloudflare-ech.com"@) == 130) by {
        reveal_strlit("cloudflare-ech.com");
    }
}

proof fn turkiye_places(i: int)
    requires
        0 <= i < 8,
    ensures
        place_of(turkiye_preset().domains[i]) == 131 + i,
{
    assert(place_of("roblox.com"@) == 131) by {
        reveal_strlit("roblox.com");
    }
    assert(place_of("wattpad.com"@) == 132) by {
        reveal_strlit("wattpad.com");
    }
    assert(place_of("pastebin.com"@) == 133) by {
        reveal_strlit("pastebin.com");
    }
    assert(place_of("4shared.com"@) == 134) by {
        reveal_strlit("4shared.com");
    }
    assert(place_of("wikileaks.org"@) == 135) by {
        reveal_strlit("wikileaks.org");
    }
    assert(place_of("bitly.com"@) == 136) by {
        reveal_strlit("bitly.com");
    }
    assert(place_of("cutt.ly"@) == 137) by {
        reveal_strlit("cutt.ly");
    }
    assert(place_of("t2m.io"@) == 138) by {
        reveal_strlit("t2m.io");
    }
}

/// A listed domain stands at the place that its letters give.
pub proof fn places_are_told(i: int, j: int)
    requires
        0 <= i < preset_table().len(),
        0 <= j < preset_table()[i].domains.len(),
    ensures
        place_of(preset_table()[i].domains[j]) == entries(preset_table(), i) + j,
{
    reveal_with_fuel(entries, 9);
    if i == 0 {
        youtube_places(j);
    } else if i == 1 {
        googlevideo_places(j);
    } else if i == 2 {
        telegram_places(j);
    } else if i == 3 {
        discord_places(j);
    } else if i == 4 {
        social_places(j);
    } else if i == 5 {
        general_places(j);
    } else if i == 6 {
        cloudflare_places(j);
    } else if i == 7 {
        turkiye_places(j);
    }
}

/// No domain stands on two lists, or twice on one.
pub proof fn no_domain_stands_twice(i: int, j: int, k: int, l: int)
    requires
        0 <= i < preset_table().len(),
        0 <= j < preset_table()[i].domains.len(),
        0 <= k < preset_table().len(),
        0 <= l < preset_table()[k].domains.len(),
        preset_table()[i].domains[j] == preset_table()[k].domains[l],
    ensures
        i == k,
        j == l,
{
    places_are_told(i, j);
    places_are_told(k, l);
    reveal_with_fuel(entries, 9);
}

} // verus!
