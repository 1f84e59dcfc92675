pub mod estimated_timetable;
