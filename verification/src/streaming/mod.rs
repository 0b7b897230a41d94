pub mod make_before_break;
pub mod subscription;
