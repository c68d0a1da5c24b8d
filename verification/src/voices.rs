//! The fixed voice table offered for speech synthesis: the Chinese voice
//! list, returned both as the full listing and as its Chinese subset.

use crate::api_types::{TtsVoice, TtsVoicesResponse};
use vstd::prelude::*;

verus! {

/// One voice's fields, by view.
pub open spec fn voice_is(
    v: TtsVoice,
    short_name: Seq<char>,
    friendly_name: Seq<char>,
    locale: Seq<char>,
    gender: Seq<char>,
    description: Seq<char>,
) -> bool {
    &&& v.short_name@ == short_name
    &&& v.friendly_name@ == friendly_name
    &&& v.locale@ == locale
    &&& v.gender@ == gender
    &&& (v.description matches Some(d) && d@ == description)
}

/// The whole voice table, entry by entry.
pub open spec fn is_voice_table(s: Seq<TtsVoice>) -> bool {
    &&& s.len() == 29
    &&& voice_is(s[0], "zh-CN-XiaoxiaoNeural"@, "晓晓 (女声，温柔自然)"@, "zh-CN"@, "Female"@, "通用场景，温柔亲切"@)
    &&& voice_is(s[1], "zh-CN-XiaoyiNeural"@, "晓伊 (女声，甜美活泼)"@, "zh-CN"@, "Female"@, "年轻女性，甜美可爱"@)
    &&& voice_is(s[2], "zh-CN-XiaochenNeural"@, "晓辰 (女声，知性优雅)"@, "zh-CN"@, "Female"@, "成熟女性，知性大方"@)
    &&& voice_is(s[3], "zh-CN-XiaohanNeural"@, "晓涵 (女声，亲切温暖)"@, "zh-CN"@, "Female"@, "亲切温暖，适合客服"@)
    &&& voice_is(s[4], "zh-CN-XiaomoNeural"@, "晓墨 (女声，沉稳专业)"@, "zh-CN"@, "Female"@, "新闻播报，专业沉稳"@)
    &&& voice_is(s[5], "zh-CN-XiaoqiuNeural"@, "晓秋 (女声，成熟稳重)"@, "zh-CN"@, "Female"@, "成熟女性，稳重大气"@)
    &&& voice_is(s[6], "zh-CN-XiaoxuanNeural"@, "晓萱 (女声，优雅柔美)"@, "zh-CN"@, "Female"@, "优雅柔美，适合朗读"@)
    &&& voice_is(s[7], "zh-CN-XiaoyanNeural"@, "晓颜 (女声，柔和舒缓)"@, "zh-CN"@, "Female"@, "柔和舒缓，适合有声书"@)
    &&& voice_is(s[8], "zh-CN-XiaoyouNeural"@, "晓悠 (女声，童声可爱)"@, "zh-CN"@, "Female"@, "儿童声音，活泼可爱"@)
    &&& voice_is(s[9], "zh-CN-XiaozhenNeural"@, "晓甄 (女声，温婉动听)"@, "zh-CN"@, "Female"@, "温婉动听，适合故事"@)
    &&& voice_is(s[10], "zh-CN-XiaoruiNeural"@, "晓睿 (女声，清新明快)"@, "zh-CN"@, "Female"@, "清新明快，年轻活力"@)
    &&& voice_is(s[11], "zh-CN-XiaoshuangNeural"@, "晓双 (女声，童声)"@, "zh-CN"@, "Female"@, "儿童声音，天真烂漫"@)
    &&& voice_is(s[12], "zh-CN-YunxiNeural"@, "云希 (男声，沉稳大气)"@, "zh-CN"@, "Male"@, "通用场景，沉稳大气"@)
    &&& voice_is(s[13], "zh-CN-YunyangNeural"@, "云扬 (男声，专业播音)"@, "zh-CN"@, "Male"@, "新闻播报，专业标准"@)
    &&& voice_is(s[14], "zh-CN-YunjianNeural"@, "云健 (男声，活力阳光)"@, "zh-CN"@, "Male"@, "年轻男性，充满活力"@)
    &&& voice_is(s[15], "zh-CN-YunfengNeural"@, "云枫 (男声，成熟稳重)"@, "zh-CN"@, "Male"@, "成熟男性，稳重可靠"@)
    &&& voice_is(s[16], "zh-CN-YunhaoNeural"@, "云皓 (男声，广告配音)"@, "zh-CN"@, "Male"@, "广告配音，磁性动听"@)
    &&& voice_is(s[17], "zh-CN-YunyeNeural"@, "云野 (男声，专业解说)"@, "zh-CN"@, "Male"@, "专业解说，清晰有力"@)
    &&& voice_is(s[18], "zh-CN-YunzeNeural"@, "云泽 (男声，年轻清新)"@, "zh-CN"@, "Male"@, "年轻男性，清新自然"@)
    &&& voice_is(s[19], "zh-CN-XiaoxiaoMultilingualNeural"@, "晓晓多语言 (女声)"@, "zh-CN"@, "Female"@, "支持多语言切换"@)
    &&& voice_is(s[20], "zh-CN-YunxiMultilingualNeural"@, "云希多语言 (男声)"@, "zh-CN"@, "Male"@, "支持多语言切换"@)
    &&& voice_is(s[21], "zh-CN-liaoning-XiaobeiNeural"@, "晓北 (女声，东北话)"@, "zh-CN-liaoning"@, "Female"@, "东北方言"@)
    &&& voice_is(s[22], "zh-CN-shaanxi-XiaoniNeural"@, "晓妮 (女声，陕西话)"@, "zh-CN-shaanxi"@, "Female"@, "陕西方言"@)
    &&& voice_is(s[23], "zh-HK-HiuMaanNeural"@, "曉曼 (女声，粤语)"@, "zh-HK"@, "Female"@, "香港粤语，女声"@)
    &&& voice_is(s[24], "zh-HK-HiuGaaiNeural"@, "曉佳 (女声，粤语)"@, "zh-HK"@, "Female"@, "香港粤语，女声"@)
    &&& voice_is(s[25], "zh-HK-WanLungNeural"@, "雲龍 (男声，粤语)"@, "zh-HK"@, "Male"@, "香港粤语，男声"@)
    &&& voice_is(s[26], "zh-TW-HsiaoChenNeural"@, "曉臻 (女声，台湾)"@, "zh-TW"@, "Female"@, "台湾国语，女声"@)
    &&& voice_is(s[27], "zh-TW-HsiaoYuNeural"@, "曉雨 (女声，台湾)"@, "zh-TW"@, "Female"@, "台湾国语，女声"@)
    &&& voice_is(s[28], "zh-TW-YunJheNeural"@, "雲哲 (男声，台湾)"@, "zh-TW"@, "Male"@, "台湾国语，男声"@)
}

/// Builds the voice table.
#[verifier::rlimit(60)]
fn voice_table() -> (r: Vec<TtsVoice>)
    ensures
        is_voice_table(r@),
{
    let mut voices: Vec<TtsVoice> = Vec::new();
    voices.push(TtsVoice {
        short_name: "zh-CN-XiaoxiaoNeural".to_owned(),
        friendly_name: "晓晓 (女声，温柔自然)".to_owned(),
        locale: "zh-CN".to_owned(),
        gender: "Female".to_owned(),
        description: Some("通用场景，温柔亲切".to_owned()),
    });
    voices.push(TtsVoice {
        short_name: "zh-CN-XiaoyiNeural".to_owned(),
        friendly_name: "晓伊 (女声，甜美活泼)".to_owned(),
        locale: "zh-CN".to_owned(),
        gender: "Female".to_owned(),
        description: Some("年轻女性，甜美可爱".to_owned()),
    });
    voices.push(TtsVoice {
        short_name: "zh-CN-XiaochenNeural".to_owned(),
        friendly_name: "晓辰 (女声，知性优雅)".to_owned(),
        locale: "zh-CN".to_owned(),
        gender: "Female".to_owned(),
        description: Some("成熟女性，知性大方".to_owned()),
    });
    voices.push(TtsVoice {
        short_name: "zh-CN-XiaohanNeural".to_owned(),
        friendly_name: "晓涵 (女声，亲切温暖)".to_owned(),
        locale: "zh-CN".to_owned(),
        gender: "Female".to_owned(),
        description: Some("亲切温暖，适合客服".to_owned()),
    });
    voices.push(TtsVoice {
        short_name: "zh-CN-XiaomoNeural".to_owned(),
        friendly_name: "晓墨 (女声，沉稳专业)".to_owned(),
        locale: "zh-CN".to_owned(),
        gender: "Female".to_owned(),
        description: Some("新闻播报，专业沉稳".to_owned()),
    });
    voices.push(TtsVoice {
        short_name: "zh-CN-XiaoqiuNeural".to_owned(),
        friendly_name: "晓秋 (女声，成熟稳重)".to_owned(),
        locale: "zh-CN".to_owned(),
        gender: "Female".to_owned(),
        description: Some("成熟女性，稳重大气".to_owned()),
    });
    voices.push(TtsVoice {
        short_name: "zh-CN-XiaoxuanNeural".to_owned(),
        friendly_name: "晓萱 (女声，优雅柔美)".to_owned(),
        locale: "zh-CN".to_owned(),
        gender: "Female".to_owned(),
        description: Some("优雅柔美，适合朗读".to_owned()),
    });
    voices.push(TtsVoice {
        short_name: "zh-CN-XiaoyanNeural".to_owned(),
        friendly_name: "晓颜 (女声，柔和舒缓)".to_owned(),
        locale: "zh-CN".to_owned(),
        gender: "Female".to_owned(),
        description: Some("柔和舒缓，适合有声书".to_owned()),
    });
    voices.push(TtsVoice {
        short_name: "zh-CN-XiaoyouNeural".to_owned(),
        friendly_name: "晓悠 (女声，童声可爱)".to_owned(),
        locale: "zh-CN".to_owned(),
        gender: "Female".to_owned(),
        description: Some("儿童声音，活泼可爱".to_owned()),
    });
    voices.push(TtsVoice {
        short_name: "zh-CN-XiaozhenNeural".to_owned(),
        friendly_name: "晓甄 (女声，温婉动听)".to_owned(),
        locale: "zh-CN".to_owned(),
        gender: "Female".to_owned(),
        description: Some("温婉动听，适合故事".to_owned()),
    });
    voices.push(TtsVoice {
        short_name: "zh-CN-XiaoruiNeural".to_owned(),
        friendly_name: "晓睿 (女声，清新明快)".to_owned(),
        locale: "zh-CN".to_owned(),
        gender: "Female".to_owned(),
        description: Some("清新明快，年轻活力".to_owned()),
    });
    voices.push(TtsVoice {
        short_name: "zh-CN-XiaoshuangNeural".to_owned(),
        friendly_name: "晓双 (女声，童声)".to_owned(),
        locale: "zh-CN".to_owned(),
        gender: "Female".to_owned(),
        description: Some("儿童声音，天真烂漫".to_owned()),
    });
    voices.push(TtsVoice {
        short_name: "zh-CN-YunxiNeural".to_owned(),
        friendly_name: "云希 (男声，沉稳大气)".to_owned(),
        locale: "zh-CN".to_owned(),
        gender: "Male".to_owned(),
        description: Some("通用场景，沉稳大气".to_owned()),
    });
    voices.push(TtsVoice {
        short_name: "zh-CN-YunyangNeural".to_owned(),
        friendly_name: "云扬 (男声，专业播音)".to_owned(),
        locale: "zh-CN".to_owned(),
        gender: "Male".to_owned(),
        description: Some("新闻播报，专业标准".to_owned()),
    });
    voices.push(TtsVoice {
        short_name: "zh-CN-YunjianNeural".to_owned(),
        friendly_name: "云健 (男声，活力阳光)".to_owned(),
        locale: "zh-CN".to_owned(),
        gender: "Male".to_owned(),
        description: Some("年轻男性，充满活力".to_owned()),
    });
    voices.push(TtsVoice {
        short_name: "zh-CN-YunfengNeural".to_owned(),
        friendly_name: "云枫 (男声，成熟稳重)".to_owned(),
        locale: "zh-CN".to_owned(),
        gender: "Male".to_owned(),
        description: Some("成熟男性，稳重可靠".to_owned()),
    });
    voices.push(TtsVoice {
        short_name: "zh-CN-YunhaoNeural".to_owned(),
        friendly_name: "云皓 (男声，广告配音)".to_owned(),
        locale: "zh-CN".to_owned(),
        gender: "Male".to_owned(),
        description: Some("广告配音，磁性动听".to_owned()),
    });
    voices.push(TtsVoice {
        short_name: "zh-CN-YunyeNeural".to_owned(),
        friendly_name: "云野 (男声，专业解说)".to_owned(),
        locale: "zh-CN".to_owned(),
        gender: "Male".to_owned(),
        description: Some("专业解说，清晰有力".to_owned()),
    });
    voices.push(TtsVoice {
        short_name: "zh-CN-YunzeNeural".to_owned(),
        friendly_name: "云泽 (男声，年轻清新)".to_owned(),
        locale: "zh-CN".to_owned(),
        gender: "Male".to_owned(),
        description: Some("年轻男性，清新自然".to_owned()),
    });
    voices.push(TtsVoice {
        short_name: "zh-CN-XiaoxiaoMultilingualNeural".to_owned(),
        friendly_name: "晓晓多语言 (女声)".to_owned(),
        locale: "zh-CN".to_owned(),
        gender: "Female".to_owned(),
        description: Some("支持多语言切换".to_owned()),
    });
    voices.push(TtsVoice {
        short_name: "zh-CN-YunxiMultilingualNeural".to_owned(),
        friendly_name: "云希多语言 (男声)".to_owned(),
        locale: "zh-CN".to_owned(),
        gender: "Male".to_owned(),
        description: Some("支持多语言切换".to_owned()),
    });
    voices.push(TtsVoice {
        short_name: "zh-CN-liaoning-XiaobeiNeural".to_owned(),
        friendly_name: "晓北 (女声，东北话)".to_owned(),
        locale: "zh-CN-liaoning".to_owned(),
        gender: "Female".to_owned(),
        description: Some("东北方言".to_owned()),
    });
    voices.push(TtsVoice {
        short_name: "zh-CN-shaanxi-XiaoniNeural".to_owned(),
        friendly_name: "晓妮 (女声，陕西话)".to_owned(),
        locale: "zh-CN-shaanxi".to_owned(),
        gender: "Female".to_owned(),
        description: Some("陕西方言".to_owned()),
    });
    voices.push(TtsVoice {
        short_name: "zh-HK-HiuMaanNeural".to_owned(),
        friendly_name: "曉曼 (女声，粤语)".to_owned(),
        locale: "zh-HK".to_owned(),
        gender: "Female".to_owned(),
        description: Some("香港粤语，女声".to_owned()),
    });
    voices.push(TtsVoice {
        short_name: "zh-HK-HiuGaaiNeural".to_owned(),
        friendly_name: "曉佳 (女声，粤语)".to_owned(),
        locale: "zh-HK".to_owned(),
        gender: "Female".to_owned(),
        description: Some("香港粤语，女声".to_owned()),
    });
    voices.push(TtsVoice {
        short_name: "zh-HK-WanLungNeural".to_owned(),
        friendly_name: "雲龍 (男声，粤语)".to_owned(),
        locale: "zh-HK".to_owned(),
        gender: "Male".to_owned(),
        description: Some("香港粤语，男声".to_owned()),
    });
    voices.push(TtsVoice {
        short_name: "zh-TW-HsiaoChenNeural".to_owned(),
        friendly_name: "曉臻 (女声，台湾)".to_owned(),
        locale: "zh-TW".to_owned(),
        gender: "Female".to_owned(),
        description: Some("台湾国语，女声".to_owned()),
    });
    voices.push(TtsVoice {
        short_name: "zh-TW-HsiaoYuNeural".to_owned(),
        friendly_name: "曉雨 (女声，台湾)".to_owned(),
        locale: "zh-TW".to_owned(),
        gender: "Female".to_owned(),
        description: Some("台湾国语，女声".to_owned()),
    });
    voices.push(TtsVoice {
        short_name: "zh-TW-YunJheNeural".to_owned(),
        friendly_name: "雲哲 (男声，台湾)".to_owned(),
        locale: "zh-TW".to_owned(),
        gender: "Male".to_owned(),
        description: Some("台湾国语，男声".to_owned()),
    });
    voices
}

/// The voice listing: the full list and the Chinese subset, here the same
/// table.
pub fn list_voices() -> (r: TtsVoicesResponse)
    ensures
        is_voice_table(r.all@),
        is_voice_table(r.chinese@),
{
    TtsVoicesResponse { all: voice_table(), chinese: voice_table() }
}

} // verus!
