pub mod sea_orm_active_enums;
pub mod shows;
pub mod users;
