use vstd::prelude::*;
use vstd::string::*;

verus! {

/// Why an action was refused.
#[derive(Debug, Clone, PartialEq, Eq)]
pub enum GameError {
    GameFull,
    PlayerNotFound,
    InvalidAction,
    NotYourTurn,
    CardNotInHand,
    InvalidMeld,
    GameNotStarted,
    GameAlreadyEnded,
    SkillError(String),
    NetworkError(String),
    InternalError(String),
}

impl GameError {
    /// The user-facing message of the error.
    pub fn to_string(&self) -> (r: String)
        ensures
            r@ == match self {
                GameError::GameFull => "游戏已满，无法加入"@,
                GameError::PlayerNotFound => "玩家不在游戏中"@,
                GameError::InvalidAction => "无效的操作"@,
                GameError::NotYourTurn => "不是当前玩家的回合"@,
                GameError::CardNotInHand => "手牌中没有这张牌"@,
                GameError::InvalidMeld => "无效的牌型"@,
                GameError::GameNotStarted => "游戏尚未开始"@,
                GameError::GameAlreadyEnded => "游戏已经结束"@,
                GameError::SkillError(m) => "技能使用失败: "@ + m@,
                GameError::NetworkError(m) => "网络错误: "@ + m@,
                GameError::InternalError(m) => "内部错误: "@ + m@,
            },
    {
        match self {
            GameError::GameFull => String::from_str("游戏已满，无法加入"),
            GameError::PlayerNotFound => String::from_str("玩家不在游戏中"),
            GameError::InvalidAction => String::from_str("无效的操作"),
            GameError::NotYourTurn => String::from_str("不是当前玩家的回合"),
            GameError::CardNotInHand => String::from_str("手牌中没有这张牌"),
            GameError::InvalidMeld => String::from_str("无效的牌型"),
            GameError::GameNotStarted => String::from_str("游戏尚未开始"),
            GameError::GameAlreadyEnded => String::from_str("游戏已经结束"),
            GameError::SkillError(m) => String::from_str("技能使用失败: ").concat(m.as_str()),
            GameError::NetworkError(m) => String::from_str("网络错误: ").concat(m.as_str()),
            GameError::InternalError(m) => String::from_str("内部错误: ").concat(m.as_str()),
        }
    }
}

} // verus!
